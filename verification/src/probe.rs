//! Choosing the sample rate of a media file from the stream metadata that a
//! probe reports.
use vstd::prelude::*;
use vstd::string::StringExecFns;

verus! {

/// Container format reported by the probe.
#[derive(Clone, Debug)]
pub struct Format {
    pub format_name: String,
}

/// One stream reported by the probe.
#[derive(Clone, Debug)]
pub struct Stream {
    pub codec_type: String,
    pub codec_name: String,
    pub sample_rate: Option<String>,
}

/// What the probe reports about a media file.
#[derive(Clone, Debug)]
pub struct Metadata {
    pub streams: Vec<Stream>,
    pub format: Format,
}

/// Why no sample rate could be chosen.
#[derive(Clone, Debug, PartialEq, Eq)]
pub enum ProbeError {
    /// The container format is not one of the supported ones.
    UnsupportedFormat { format_name: String },
    /// The chosen stream's sample rate is not a decimal `u32`.
    InvalidSampleRate { sample_rate: String },
    /// No audio stream with a supported codec reports a sample rate.
    NoAudioStreams,
}

/// The supported container formats.
pub open spec fn supported_format(name: Seq<char>) -> bool {
    name == "wav"@ || name == "flac"@ || name == "mp3"@
}

/// The supported codecs.
pub open spec fn supported_codec(name: Seq<char>) -> bool {
    name == "pcm_s16le"@ || name == "pcm_s24le"@ || name == "pcm_s32le"@ || name == "pcm_f32le"@
        || name == "pcm_f64le"@ || name == "pcm_s16be"@ || name == "pcm_s24be"@ || name
        == "pcm_s32be"@ || name == "pcm_f32be"@ || name == "pcm_f64be"@ || name == "mp3"@ || name
        == "flac"@
}

/// A stream the sample rate may be taken from: an audio stream with a
/// supported codec that reports a sample rate.
pub open spec fn usable_stream(s: Stream) -> bool {
    supported_codec(s.codec_name@) && s.codec_type@ == "audio"@ && s.sample_rate is Some
}

/// The value of a string of ASCII decimal digits.
pub open spec fn decimal_value(d: Seq<char>) -> int
    decreases d.len(),
{
    if d.len() == 0 {
        0
    } else {
        decimal_value(d.drop_last()) * 10 + (d.last() as int - '0' as int)
    }
}

/// How `str::parse::<u32>` reads a string: an optional `+` followed by one or
/// more ASCII digits whose value fits in a `u32`.
pub open spec fn parsed_u32(s: Seq<char>) -> Option<u32> {
    let d = digits_of(s);
    if d.len() > 0 && all_digits(d) && decimal_value(d) <= u32::MAX {
        Some(decimal_value(d) as u32)
    } else {
        None
    }
}

/// The text after an optional leading `+`.
pub open spec fn digits_of(s: Seq<char>) -> Seq<char> {
    if s.len() > 0 && s[0] == '+' {
        s.skip(1)
    } else {
        s
    }
}

/// Every character is an ASCII decimal digit.
pub open spec fn all_digits(d: Seq<char>) -> bool {
    forall|i: int| 0 <= i < d.len() ==> '0' <= #[trigger] d[i] <= '9'
}

/// `str::parse::<u32>`: reads an optional `+` and then ASCII decimal digits;
/// fails on anything else, on no digits and on values above `u32::MAX`.
#[verifier::external_body]
fn parse_u32(s: &str) -> (r: Option<u32>)
    ensures
        r == parsed_u32(s@),
{
    s.parse::<u32>().ok()
}

proof fn lemma_decimal_nonneg(d: Seq<char>)
    requires
        forall|i: int| 0 <= i < d.len() ==> '0' <= #[trigger] d[i] <= '9',
    ensures
        decimal_value(d) >= 0,
    decreases d.len(),
{
    if d.len() > 0 {
        lemma_decimal_nonneg(d.drop_last());
    }
}

/// Reading a `u32` digit by digit: a single digit (with or without a leading
/// `+`) is its own value; a further digit multiplies the value read so far by
/// ten and adds itself, as long as the result fits in a `u32`, and fails
/// otherwise; a string that cannot be read stays so when a digit is added
/// (unless it was the lone `+`); any other character ends in failure.
pub proof fn law_parsed_u32_digits(d: Seq<char>, c: char, x: char)
    requires
        '0' <= c <= '9',
        !('0' <= x <= '9'),
    ensures
        parsed_u32(seq![c]) == Some((c as int - '0' as int) as u32),
        parsed_u32(seq!['+', c]) == Some((c as int - '0' as int) as u32),
        d.len() > 0 && parsed_u32(d) is Some ==> parsed_u32(d.push(c)) == if parsed_u32(d)->0 * 10
            + (c as int - '0' as int) <= u32::MAX {
            Some((parsed_u32(d)->0 * 10 + (c as int - '0' as int)) as u32)
        } else {
            None::<u32>
        },
        d.len() > 0 && d != seq!['+'] && parsed_u32(d) is None ==> parsed_u32(d.push(c)) is None,
        parsed_u32(d.push(x)) is None,
        parsed_u32(Seq::<char>::empty()) is None,
        parsed_u32(seq!['+']) is None,
{
    let one = seq![c];
    assert(one.drop_last() =~= Seq::<char>::empty());
    assert(one.last() == c);
    assert(decimal_value(Seq::<char>::empty()) == 0);
    assert(decimal_value(one) == c as int - '0' as int);
    let plus_one = seq!['+', c];
    assert(plus_one.skip(1) =~= one);
    assert(seq!['+'].skip(1) =~= Seq::<char>::empty());
    let e = d.push(c);
    let dd = digits_of(d);
    let ee = digits_of(e);
    if d.len() > 0 {
        assert(e[0] == d[0]);
        assert(ee =~= dd.push(c));
        assert(ee.drop_last() =~= dd);
        assert(ee.last() == c);
        assert(decimal_value(ee) == decimal_value(dd) * 10 + (c as int - '0' as int));
        if all_digits(dd) {
            lemma_decimal_nonneg(dd);
            assert forall|i: int| 0 <= i < ee.len() implies '0' <= #[trigger] ee[i] <= '9' by {
                if i < dd.len() {
                    assert(ee[i] == dd[i]);
                }
            }
            assert(all_digits(ee));
        } else {
            let i = choose|i: int| 0 <= i < dd.len() && !('0' <= #[trigger] dd[i] <= '9');
            assert(ee[i] == dd[i]);
            assert(!all_digits(ee));
        }
        if parsed_u32(d) is None && d != seq!['+'] {
            if dd.len() == 0 {
                assert(d =~= seq!['+']);
            }
        }
    }
    let f = d.push(x);
    let ff = digits_of(f);
    if d.len() > 0 {
        assert(f[0] == d[0]);
        assert(ff.len() > 0);
        assert(ff[ff.len() - 1] == x);
        assert(!all_digits(ff));
    } else if x != '+' {
        assert(ff =~= seq![x]);
        assert(!all_digits(ff));
    } else {
        assert(ff.len() == 0);
    }
}

/// The sample rate reported for a media file: the container format must be
/// supported; the first usable stream decides.
pub open spec fn chosen_sample_rate(m: Metadata) -> Result<u32, ProbeError> {
    if !supported_format(m.format.format_name@) {
        Err(ProbeError::UnsupportedFormat { format_name: m.format.format_name })
    } else if exists|i: int| 0 <= i < m.streams@.len() && usable_stream(#[trigger] m.streams@[i]) {
        let i = choose|i: int|
            0 <= i < m.streams@.len() && usable_stream(#[trigger] m.streams@[i]) && forall|j: int|
                0 <= j < i ==> !usable_stream(#[trigger] m.streams@[j]);
        let rate = m.streams@[i].sample_rate.unwrap();
        match parsed_u32(rate@) {
            Some(n) => Ok(n),
            None => Err(ProbeError::InvalidSampleRate { sample_rate: rate }),
        }
    } else {
        Err(ProbeError::NoAudioStreams)
    }
}

/// An audio stream that reports a sample rate can be used exactly when its
/// codec is one of PCM in 16, 24 or 32 bit integers or 32 or 64 bit floats,
/// little or big endian, MP3 or FLAC.
pub proof fn law_usable_streams(s: Stream)
    ensures
        usable_stream(s) == (s.codec_type@ == "audio"@ && s.sample_rate is Some && (s.codec_name@ == "pcm_s16le"@ || s.codec_name@ == "pcm_s24le"@ || s.codec_name@ == "pcm_s32le"@ || s.codec_name@ == "pcm_f32le"@ || s.codec_name@ == "pcm_f64le"@ || s.codec_name@ == "pcm_s16be"@ || s.codec_name@ == "pcm_s24be"@ || s.codec_name@ == "pcm_s32be"@ || s.codec_name@ == "pcm_f32be"@ || s.codec_name@ == "pcm_f64be"@ || s.codec_name@ == "mp3"@ || s.codec_name@ == "flac"@)),
{
}

/// The containers whose sample rate is read are WAV, FLAC and MP3; for any
/// other the answer is the unsupported format error.
pub proof fn law_supported_formats(m: Metadata)
    ensures
        supported_format(m.format.format_name@) == (m.format.format_name@ == "wav"@
            || m.format.format_name@ == "flac"@ || m.format.format_name@ == "mp3"@),
        !(m.format.format_name@ == "wav"@ || m.format.format_name@ == "flac"@
            || m.format.format_name@ == "mp3"@) ==> chosen_sample_rate(m)
            == Err::<u32, ProbeError>(ProbeError::UnsupportedFormat {
            format_name: m.format.format_name,
        }),
{
}

/// In a supported container, the first usable stream gives the sample rate:
/// its rate read as a `u32`, or the invalid rate error; with no usable
/// stream the answer is that there are no audio streams.
pub proof fn law_first_usable_stream_decides(m: Metadata, k: int)
    requires
        supported_format(m.format.format_name@),
    ensures
        (0 <= k < m.streams@.len() && usable_stream(m.streams@[k]) && forall|j: int|
            0 <= j < k ==> !usable_stream(#[trigger] m.streams@[j])) ==> chosen_sample_rate(m)
            == match parsed_u32(m.streams@[k].sample_rate.unwrap()@) {
            Some(n) => Ok::<u32, ProbeError>(n),
            None => Err(ProbeError::InvalidSampleRate {
                sample_rate: m.streams@[k].sample_rate.unwrap(),
            }),
        },
        (forall|j: int| 0 <= j < m.streams@.len() ==> !usable_stream(#[trigger] m.streams@[j]))
            ==> chosen_sample_rate(m) == Err::<u32, ProbeError>(ProbeError::NoAudioStreams),
{
    if 0 <= k < m.streams@.len() && usable_stream(m.streams@[k]) && forall|j: int|
        0 <= j < k ==> !usable_stream(#[trigger] m.streams@[j]) {
        let i = choose|i: int|
            0 <= i < m.streams@.len() && usable_stream(#[trigger] m.streams@[i]) && forall|j: int|
                0 <= j < i ==> !usable_stream(#[trigger] m.streams@[j]);
        assert(i == k) by {
            if i < k {
                assert(!usable_stream(m.streams@[i]));
            }
            if k < i {
                assert(!usable_stream(m.streams@[k]));
            }
        }
    }
}

fn is_supported_format(name: &String) -> (r: bool)
    ensures
        r == supported_format(name@),
{
    *name == String::from_str("wav") || *name == String::from_str("flac") || *name
        == String::from_str("mp3")
}

fn is_supported_codec(name: &String) -> (r: bool)
    ensures
        r == supported_codec(name@),
{
    *name == String::from_str("pcm_s16le") || *name == String::from_str("pcm_s24le") || *name
        == String::from_str("pcm_s32le") || *name == String::from_str("pcm_f32le") || *name
        == String::from_str("pcm_f64le") || *name == String::from_str("pcm_s16be") || *name
        == String::from_str("pcm_s24be") || *name == String::from_str("pcm_s32be") || *name
        == String::from_str("pcm_f32be") || *name == String::from_str("pcm_f64be") || *name
        == String::from_str("mp3") || *name == String::from_str("flac")
}

/// Chooses the sample rate of a probed media file.
pub fn sample_rate_from_metadata(data: &Metadata) -> (r: Result<u32, ProbeError>)
    ensures
        r == chosen_sample_rate(*data),
{
    if !is_supported_format(&data.format.format_name) {
        return Err(ProbeError::UnsupportedFormat { format_name: data.format.format_name.clone() });
    }
    let mut i: usize = 0;
    while i < data.streams.len()
        invariant
            0 <= i <= data.streams.len(),
            supported_format(data.format.format_name@),
            forall|j: int| 0 <= j < i ==> !usable_stream(#[trigger] data.streams@[j]),
        decreases data.streams.len() - i,
    {
        let stream = &data.streams[i];
        if is_supported_codec(&stream.codec_name) && stream.codec_type == String::from_str(
            "audio",
        ) {
            match &stream.sample_rate {
                Some(rate) => {
                    proof {
                        assert(usable_stream(data.streams@[i as int]));
                        let k = choose|k: int|
                            0 <= k < data.streams@.len() && usable_stream(
                                #[trigger] data.streams@[k],
                            ) && forall|j: int|
                                0 <= j < k ==> !usable_stream(#[trigger] data.streams@[j]);
                        assert(k == i);
                    }
                    return match parse_u32(rate.as_str()) {
                        Some(n) => Ok(n),
                        None => Err(ProbeError::InvalidSampleRate { sample_rate: rate.clone() }),
                    };
                },
                None => {},
            }
        }
        i += 1;
    }
    Err(ProbeError::NoAudioStreams)
}

} // verus!
