use audiocloud::probe::{sample_rate_from_metadata, Format, Metadata, ProbeError, Stream};

fn stream(codec_type: &str, codec_name: &str, rate: Option<&str>) -> Stream {
    Stream {
        codec_type: codec_type.to_string(),
        codec_name: codec_name.to_string(),
        sample_rate: rate.map(|r| r.to_string()),
    }
}

fn metadata(format: &str, streams: Vec<Stream>) -> Metadata {
    Metadata { streams, format: Format { format_name: format.to_string() } }
}

#[test]
fn wav_with_pcm_stream() {
    let m = metadata("wav", vec![stream("audio", "pcm_s24le", Some("48000"))]);
    assert_eq!(sample_rate_from_metadata(&m), Ok(48000));
}

#[test]
fn first_usable_stream_decides() {
    let m = metadata(
        "flac",
        vec![
            stream("video", "flac", Some("1")),
            stream("audio", "aac", Some("2")),
            stream("audio", "flac", None),
            stream("audio", "flac", Some("96000")),
            stream("audio", "mp3", Some("44100")),
        ],
    );
    assert_eq!(sample_rate_from_metadata(&m), Ok(96000));
}

#[test]
fn plus_sign_is_accepted() {
    let m = metadata("mp3", vec![stream("audio", "mp3", Some("+44100"))]);
    assert_eq!(sample_rate_from_metadata(&m), Ok(44100));
}

#[test]
fn unsupported_format() {
    let m = metadata("ogg", vec![stream("audio", "pcm_s16le", Some("48000"))]);
    assert_eq!(
        sample_rate_from_metadata(&m),
        Err(ProbeError::UnsupportedFormat { format_name: "ogg".to_string() })
    );
}

#[test]
fn invalid_sample_rate() {
    for bad in ["", "48k", "-1", "4294967296", " 48000", "+"] {
        let m = metadata("wav", vec![stream("audio", "pcm_f32le", Some(bad))]);
        assert_eq!(
            sample_rate_from_metadata(&m),
            Err(ProbeError::InvalidSampleRate { sample_rate: bad.to_string() })
        );
    }
    let m = metadata("wav", vec![stream("audio", "pcm_f32le", Some("4294967295"))]);
    assert_eq!(sample_rate_from_metadata(&m), Ok(u32::MAX));
}

#[test]
fn no_audio_streams() {
    let m = metadata("wav", vec![stream("video", "pcm_s16le", Some("48000"))]);
    assert_eq!(sample_rate_from_metadata(&m), Err(ProbeError::NoAudioStreams));
    let m = metadata("wav", vec![]);
    assert_eq!(sample_rate_from_metadata(&m), Err(ProbeError::NoAudioStreams));
}
