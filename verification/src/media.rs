//! Requests on the media of a task: sample rates, bit depths and play or
//! render requests.
use std::collections::HashSet;
use vstd::prelude::*;

use crate::ids::{AppMediaObjectId, AppTaskId, MixerNodeId};
use crate::instance::{PlayId, RenderId};
use crate::time::Timestamp;

verus! {

#[derive(Clone, Copy, Debug, PartialEq, Eq)]
pub enum SampleRate {
    SR192,
    SR96,
    SR88_2,
    SR48,
    SR44_1,
}

#[derive(Clone, Copy, Debug, PartialEq, Eq)]
pub enum PlayBitDepth {
    PD24,
    PD16,
}

/// Samples per second of a sample rate.
pub open spec fn sample_rate_hz(r: SampleRate) -> usize {
    match r {
        SampleRate::SR192 => 192_000,
        SampleRate::SR96 => 96_000,
        SampleRate::SR88_2 => 88_200,
        SampleRate::SR48 => 48_000,
        SampleRate::SR44_1 => 44_100,
    }
}

/// Bits per sample of a bit depth.
pub open spec fn bit_depth_bits(d: PlayBitDepth) -> usize {
    match d {
        PlayBitDepth::PD24 => 24,
        PlayBitDepth::PD16 => 16,
    }
}

impl vstd::std_specs::convert::FromSpecImpl<SampleRate> for usize {
    open spec fn obeys_from_spec() -> bool {
        true
    }

    open spec fn from_spec(v: SampleRate) -> usize {
        sample_rate_hz(v)
    }
}

impl From<SampleRate> for usize {
    fn from(v: SampleRate) -> usize {
        match v {
            SampleRate::SR192 => 192_000,
            SampleRate::SR96 => 96_000,
            SampleRate::SR88_2 => 88_200,
            SampleRate::SR48 => 48_000,
            SampleRate::SR44_1 => 44_100,
        }
    }
}

impl vstd::std_specs::convert::FromSpecImpl<PlayBitDepth> for usize {
    open spec fn obeys_from_spec() -> bool {
        true
    }

    open spec fn from_spec(v: PlayBitDepth) -> usize {
        bit_depth_bits(v)
    }
}

impl From<PlayBitDepth> for usize {
    fn from(v: PlayBitDepth) -> usize {
        match v {
            PlayBitDepth::PD24 => 24,
            PlayBitDepth::PD16 => 16,
        }
    }
}

/// The media objects a task session uses, until when.
#[derive(Debug)]
pub struct UpdateMediaSession {
    pub media_objects: HashSet<AppMediaObjectId>,
    pub ends_at: Timestamp,
}

/// Commands to the media service.
#[derive(Debug)]
pub enum MediaServiceCommand {
    SetSessionMedia { session_id: AppTaskId, media: HashSet<AppMediaObjectId> },
    DeleteSession { session_id: AppTaskId },
}

#[derive(Clone, Debug, PartialEq)]
pub struct RequestChangeMixer {
    pub play_id: PlayId,
    pub mixer_id: MixerNodeId,
}

#[derive(Clone, Debug, PartialEq)]
pub struct RequestStopPlay {
    pub play_id: PlayId,
}

#[derive(Clone, Debug, PartialEq)]
pub struct RequestCancelRender {
    pub render_id: RenderId,
}

} // verus!
