//! The encoders: what they accept, what they publish, and how their sessions run.

use oxideav_audiotoolbox::adts;
use oxideav_audiotoolbox::alac::{AlacSpecificConfig, SPECIFIC_CONFIG_LEN};
use oxideav_audiotoolbox::alac_encoder;
use oxideav_audiotoolbox::encode::EncodeSession;
use oxideav_audiotoolbox::encoder::{self, AacProfile};
use oxideav_audiotoolbox::error::Error;
use oxideav_audiotoolbox::flac;
use oxideav_audiotoolbox::flac_encoder;
use oxideav_audiotoolbox::ilbc_encoder::{self, holds_floats};
use oxideav_audiotoolbox::opus::{
    OpusHead, DEFAULT_FRAMES_PER_PACKET_48K, OPUS_HEAD_MAGIC, OPUS_HEAD_MIN_LEN,
};
use oxideav_audiotoolbox::opus_encoder::{self, parse_frame_duration, OpusAtEncoder};
use oxideav_audiotoolbox::params::{CodecParameters, SampleFormat};
use oxideav_audiotoolbox::session::{AudioFrame, FillReply, Frame};
use oxideav_audiotoolbox::sys::AudioConverterPrimeInfo;

fn pcm(data: Vec<u8>) -> Frame {
    Frame::Audio(AudioFrame {
        samples: 0,
        pts: None,
        data: vec![data],
    })
}

fn packet(data: Vec<u8>) -> FillReply {
    FillReply {
        status: 0,
        packets: 1,
        data,
    }
}

fn dry() -> FillReply {
    FillReply {
        status: 0,
        packets: 0,
        data: Vec::new(),
    }
}

fn failure() -> FillReply {
    FillReply {
        status: -50,
        packets: 0,
        data: Vec::new(),
    }
}

fn message<T>(r: Result<T, Error>) -> String {
    match r {
        Ok(_) => panic!("expected an error"),
        Err(e) => e.message(),
    }
}

/// A converter that takes `ask` samples a fill and makes a packet of their first byte.
/// The bytes that it was given.
fn run(session: &mut EncodeSession, ask: u32) -> Vec<u8> {
    let mut taken = Vec::new();
    while let Some(request) = session.next_fill() {
        assert_eq!(request.packets, 1);
        let s = session.supply(ask);
        let first: Vec<u8> = s.list.buffers[0].data.iter().take(1).copied().collect();
        taken.extend_from_slice(&s.list.buffers[0].data);
        session.filled(packet(first)).expect("filled");
    }
    taken
}

// AAC

fn params_48k_stereo() -> CodecParameters {
    let mut p = CodecParameters::audio("aac");
    p.sample_rate = Some(48_000);
    p.channels = Some(2);
    p.sample_format = Some(SampleFormat::F32);
    p.bit_rate = Some(128_000);
    p
}

#[test]
fn encoder_make_encoder_succeeds() {
    let r = encoder::make_encoder(&params_48k_stereo());
    assert!(r.is_ok(), "make_encoder failed: {:?}", r.err());
}

#[test]
fn profile_parses_known_strings() {
    assert_eq!(AacProfile::parse(None), AacProfile::Lc);
    assert_eq!(AacProfile::parse(Some("lc")), AacProfile::Lc);
    assert_eq!(AacProfile::parse(Some("he")), AacProfile::He);
    assert_eq!(AacProfile::parse(Some("he-v1")), AacProfile::He);
    assert_eq!(AacProfile::parse(Some("HE")), AacProfile::He);
    assert_eq!(AacProfile::parse(Some("he-v2")), AacProfile::HeV2);
    assert_eq!(AacProfile::parse(Some("HEv2")), AacProfile::HeV2);
    assert_eq!(AacProfile::parse(Some("ld")), AacProfile::Ld);
    assert_eq!(AacProfile::parse(Some("LD")), AacProfile::Ld);
    assert_eq!(AacProfile::parse(Some("aac-ld")), AacProfile::Ld);
    assert_eq!(AacProfile::parse(Some("eld")), AacProfile::Eld);
    assert_eq!(AacProfile::parse(Some("ELD")), AacProfile::Eld);
    assert_eq!(AacProfile::parse(Some("aac-eld")), AacProfile::Eld);
    assert_eq!(AacProfile::parse(Some("xyz")), AacProfile::Lc);
}

#[test]
fn profile_frames_per_packet() {
    assert_eq!(AacProfile::Lc.frames_per_packet(), 1024);
    assert_eq!(AacProfile::He.frames_per_packet(), 2048);
    assert_eq!(AacProfile::HeV2.frames_per_packet(), 2048);
    assert_eq!(AacProfile::Ld.frames_per_packet(), 512);
    assert_eq!(AacProfile::Eld.frames_per_packet(), 512);
}

#[test]
fn profile_is_raw() {
    assert!(!AacProfile::Lc.is_raw());
    assert!(AacProfile::He.is_raw());
    assert!(AacProfile::HeV2.is_raw());
    assert!(AacProfile::Ld.is_raw());
    assert!(AacProfile::Eld.is_raw());
}

fn params_ld_48k_stereo() -> CodecParameters {
    let mut p = params_48k_stereo();
    p.options.insert("profile", "ld");
    p
}

#[test]
fn make_encoder_ld() {
    let r = encoder::make_encoder(&params_ld_48k_stereo());
    assert!(r.is_ok(), "AAC-LD make_encoder failed: {:?}", r.err());
}

#[test]
fn make_encoder_eld() {
    let mut p = params_48k_stereo();
    p.options.insert("profile", "eld");
    let r = encoder::make_encoder(&p);
    assert!(r.is_ok(), "AAC-ELD make_encoder failed: {:?}", r.err());
}

fn params_he_48k_stereo() -> CodecParameters {
    let mut p = params_48k_stereo();
    p.bit_rate = Some(64_000);
    p.options.insert("profile", "he");
    p
}

#[test]
fn make_encoder_he() {
    let r = encoder::make_encoder(&params_he_48k_stereo());
    assert!(r.is_ok(), "HE-AAC make_encoder failed: {:?}", r.err());
}

fn params_he_v2_48k_stereo() -> CodecParameters {
    let mut p = params_48k_stereo();
    p.bit_rate = Some(32_000);
    p.options.insert("profile", "he-v2");
    p
}

#[test]
fn make_encoder_he_v2() {
    let r = encoder::make_encoder(&params_he_v2_48k_stereo());
    assert!(r.is_ok(), "HE-AAC v2 make_encoder failed: {:?}", r.err());
}

#[test]
fn he_v2_mono_is_rejected() {
    let mut p = params_he_v2_48k_stereo();
    p.channels = Some(1);
    let r = encoder::make_encoder(&p);
    assert!(r.is_err(), "HE-AAC v2 mono should error");
    assert_eq!(
        message(r),
        "unsupported: AacAtEncoder: HE-AAC v2 requires stereo (got 1 channels)"
    );
}

#[test]
fn output_params_reports_actual_bitrate() {
    let mut enc = encoder::make_encoder(&params_48k_stereo()).expect("encoder construct");
    assert_eq!(enc.bit_rate, 128_000);
    enc.bit_rate_answered(Some(128_000));
    let br = enc
        .output_params()
        .bit_rate
        .expect("encoder must publish a bit_rate");
    assert!(
        br > 0,
        "output_params.bit_rate must be non-zero after construction (got {br})"
    );
    assert_eq!(
        br, 128_000,
        "AAC LC 48k stereo @ 128 kbit/s should pass through unchanged (got {br})"
    );
}

#[test]
fn output_params_quantises_off_grid_bitrate() {
    let mut p = params_48k_stereo();
    p.bit_rate = Some(130_001);
    let mut enc = encoder::make_encoder(&p).expect("encoder construct");
    assert_eq!(enc.output_params().bit_rate, Some(130_001));
    enc.bit_rate_answered(Some(128_000));
    let br = enc.output_params().bit_rate.expect("bit_rate published");
    assert!(br > 0, "bit_rate must be non-zero");
    assert!(
        (32_000..=260_000).contains(&br),
        "quantised bitrate {br} outside plausible 32k-260k band"
    );
    assert_eq!(br, 128_000);
    enc.bit_rate_answered(Some(0));
    assert_eq!(enc.output_params().bit_rate, Some(130_001));
    enc.bit_rate_answered(None);
    assert_eq!(enc.output_params().bit_rate, Some(130_001));
}

#[test]
fn aac_defaults_follow_the_profile() {
    let mut p = CodecParameters::audio("aac");
    for (profile, rate) in [("lc", 128_000), ("he", 64_000), ("he-v2", 32_000), ("eld", 128_000)] {
        p.options.insert("profile", profile);
        let enc = encoder::make_encoder(&p).expect("encoder construct");
        assert_eq!(enc.bit_rate, rate, "{profile}");
        assert_eq!(enc.output_params().sample_rate, Some(48_000));
        assert_eq!(enc.output_params().channels, Some(2));
    }
    p.bit_rate = Some(0x1_0000_0001);
    assert_eq!(encoder::make_encoder(&p).expect("encoder").bit_rate, 1);
}

#[test]
fn aac_publishes_its_profile_and_priming() {
    let mut enc = encoder::make_encoder(&params_he_48k_stereo()).expect("encoder");
    assert_eq!(enc.output_params().options.get("profile"), Some("he"));
    assert_eq!(enc.output_params().options.get("priming_frames"), None);
    enc.prime_info_answered(Ok(AudioConverterPrimeInfo {
        leading_frames: 2112,
        trailing_frames: 0,
    }));
    assert_eq!(
        enc.output_params().options.get("priming_frames"),
        Some("2112")
    );
    assert_eq!(enc.output_params().options.get("trailing_frames"), Some("0"));
    assert_eq!(enc.output_params().options.get("profile"), Some("he"));
    let lc = encoder::make_encoder(&params_48k_stereo()).expect("encoder");
    assert_eq!(lc.output_params().options.get("profile"), None);
    assert!(lc.output_params().extradata.is_empty());
}

#[test]
fn aac_publishes_the_cookie_it_is_given() {
    let mut enc = encoder::make_encoder(&params_48k_stereo()).expect("encoder");
    enc.cookie_answered(Err(Error::Other("none".to_string())));
    assert!(enc.output_params().extradata.is_empty());
    enc.cookie_answered(Ok(vec![0x11, 0x90]));
    assert_eq!(enc.output_params().extradata, vec![0x11, 0x90]);
}

#[test]
fn aac_refuses_what_it_cannot_code() {
    let mut p = params_48k_stereo();
    p.sample_rate = Some(44_000);
    assert_eq!(
        message(encoder::make_encoder(&p)),
        "unsupported: AacAtEncoder: unsupported sample rate 44000"
    );
    p.sample_rate = Some(44_100);
    p.channels = Some(7);
    assert_eq!(
        message(encoder::make_encoder(&p)),
        "unsupported: AacAtEncoder: unsupported channel count 7"
    );
    p.channels = Some(8);
    assert_eq!(
        encoder::make_encoder(&p).expect("7.1").session.channel_config,
        7
    );
    p.sample_format = Some(SampleFormat::S32);
    assert_eq!(
        message(encoder::make_encoder(&p)),
        "unsupported: AacAtEncoder: only F32 and S16 input supported"
    );
}

fn lc_mono_s16() -> encoder::AacAtEncoder {
    let mut p = CodecParameters::audio("aac");
    p.channels = Some(1);
    p.sample_format = Some(SampleFormat::S16);
    encoder::make_encoder(&p).expect("encoder")
}

#[test]
fn lc_packets_get_an_adts_header() {
    let mut enc = lc_mono_s16();
    assert_eq!(enc.setup.create_op, "AudioConverterNew (encoder, profile=Lc)");
    enc.session.send_frame(&pcm(vec![1; 2048])).expect("send");
    let request = enc.session.next_fill().expect("fill");
    assert_eq!((request.channels, request.capacity), (1, 8192));
    assert_eq!(enc.session.supply(1024).packets, 1024);
    enc.session.filled(packet(vec![5, 6, 7])).expect("filled");
    assert!(enc.session.next_fill().is_none());
    let pkt = enc.session.receive_packet().expect("packet");
    assert_eq!(pkt.pts, Some(0));
    assert!(pkt.keyframe);
    assert_eq!((pkt.time_base.num, pkt.time_base.den), (1, 48_000));
    let header = adts::parse(&pkt.data).expect("header");
    assert_eq!(header.frame_length, 10);
    assert_eq!(header.sampling_freq_index, 3);
    assert_eq!(header.channel_configuration, 1);
    assert_eq!(&pkt.data[7..], &[5, 6, 7]);
    assert!(matches!(enc.session.receive_packet(), Err(Error::NeedMore)));
}

#[test]
fn he_waits_for_five_packets_and_flushes_the_rest() {
    let mut p = CodecParameters::audio("aac");
    p.sample_format = Some(SampleFormat::S16);
    p.options.insert("profile", "he");
    let mut enc = encoder::make_encoder(&p).expect("encoder");
    let size = 2048 * 4;
    enc.session.send_frame(&pcm(vec![1; 4 * size + 3])).expect("send");
    assert!(enc.session.next_fill().is_none());
    enc.session.send_frame(&pcm(vec![2; 2 * size])).expect("send");
    let mut fills = 0;
    while enc.session.next_fill().is_some() {
        let s = enc.session.supply(2048);
        assert_eq!(s.packets, 2048);
        enc.session.filled(packet(vec![fills])).expect("filled");
        fills += 1;
    }
    assert_eq!(fills, 2);
    assert_eq!(enc.session.staging.queue.len(), 4 * size + 3);
    enc.session.flush();
    let mut supplied = 0;
    let mut dry_fills = 0;
    while enc.session.next_fill().is_some() {
        let s = enc.session.supply(2048);
        if s.packets == 0 {
            dry_fills += 1;
            enc.session.filled(dry()).expect("dry");
        } else {
            supplied += s.packets;
            enc.session.filled(packet(vec![9])).expect("filled");
        }
    }
    assert_eq!(supplied, 5 * 2048);
    assert_eq!(dry_fills, 2);
    let mut times = Vec::new();
    while let Ok(pkt) = enc.session.receive_packet() {
        times.push(pkt.pts.unwrap());
    }
    assert_eq!(times, (0..7).map(|i| i * 2048).collect::<Vec<i64>>());
    assert!(matches!(enc.session.receive_packet(), Err(Error::Eof)));
    assert!(matches!(
        enc.session.send_frame(&pcm(vec![1])),
        Err(Error::Eof)
    ));
}

#[test]
fn a_failed_aac_fill_keeps_its_pcm() {
    let mut enc = lc_mono_s16();
    enc.session.send_frame(&pcm(vec![1; 2048])).expect("send");
    assert!(enc.session.next_fill().is_some());
    assert_eq!(enc.session.supply(0).packets, 1024);
    assert_eq!(
        message(enc.session.filled(failure())),
        "AudioConverterFillComplexBuffer (encoder) failed: kAudio_ParamError (-50)"
    );
    assert!(enc.session.next_fill().is_none());
    enc.session.send_frame(&pcm(vec![2; 2])).expect("send");
    assert!(enc.session.next_fill().is_some());
    let s = enc.session.supply(0);
    assert_eq!(s.packets, 1025);
    assert_eq!(s.list.buffers[0].data[0], 1);
}

#[test]
fn draining_an_aac_encoder_takes_sixteen_fills_at_most() {
    let mut enc = lc_mono_s16();
    enc.session.flush();
    let mut fills = 0;
    while enc.session.next_fill().is_some() {
        enc.session
            .filled(FillReply {
                status: 1,
                packets: 1,
                data: vec![1],
            })
            .expect("a status does not stop the drain");
        fills += 1;
    }
    assert_eq!(fills, 16);
}

#[test]
fn aac_takes_audio_only() {
    let mut enc = lc_mono_s16();
    assert_eq!(
        message(enc.session.send_frame(&Frame::Other)),
        "unsupported: AacAtEncoder only accepts Audio frames"
    );
    enc.session.send_frame(&pcm(Vec::new())).expect("empty plane");
    assert!(enc.session.next_fill().is_none());
}

#[test]
fn aac_packets_get_room() {
    let mut enc = lc_mono_s16();
    enc.session.max_packet_size_answered(Some(100));
    assert_eq!(enc.session.max_packet_bytes, 256);
    enc.session.max_packet_size_answered(Some(1536));
    assert_eq!(enc.session.max_packet_bytes, 1536);
    enc.session.max_packet_size_answered(None);
    assert_eq!(enc.session.max_packet_bytes, 1536);
}

// ALAC

fn params_alac_48k_stereo() -> CodecParameters {
    let mut p = CodecParameters::audio("alac");
    p.sample_rate = Some(48_000);
    p.channels = Some(2);
    p.sample_format = Some(SampleFormat::S16);
    p
}

#[test]
fn alac_encoder_make_encoder_succeeds() {
    let r = alac_encoder::make_encoder(&params_alac_48k_stereo());
    assert!(r.is_ok(), "make_encoder failed: {:?}", r.err());
}

#[test]
fn encoder_publishes_magic_cookie() {
    let enc = alac_encoder::make_encoder(&params_alac_48k_stereo()).expect("make_encoder");
    let cookie = &enc.output_params().extradata;
    assert!(
        cookie.len() >= SPECIFIC_CONFIG_LEN,
        "cookie too short: {} bytes",
        cookie.len()
    );
    assert!(
        cookie.iter().any(|&b| b != 0),
        "cookie is all zero — encoder did not vend one"
    );
    assert_eq!(
        AlacSpecificConfig::parse(cookie),
        Some(AlacSpecificConfig::new(48_000, 2, 16))
    );
}

#[test]
fn alac_refuses_what_it_cannot_code() {
    let mut p = params_alac_48k_stereo();
    p.channels = Some(0);
    assert_eq!(
        message(alac_encoder::make_encoder(&p)),
        "unsupported: ALAC encoder: unsupported channel count 0"
    );
    p.channels = Some(8);
    p.sample_format = Some(SampleFormat::F32);
    assert_eq!(
        message(alac_encoder::make_encoder(&p)),
        "unsupported: ALAC encoder: only S16 / S32 input supported (got F32)"
    );
}

#[test]
fn alac_codes_whole_packets_and_a_short_tail() {
    let mut enc = alac_encoder::make_encoder(&params_alac_48k_stereo()).expect("make_encoder");
    let size = 4096 * 4;
    let input: Vec<u8> = (0..size * 2 + 40).map(|i| (i % 251) as u8).collect();
    enc.session.send_frame(&pcm(input.clone())).expect("send");
    let mut taken = run(&mut enc.session, 7);
    assert_eq!(taken.len(), 2 * size);
    enc.session.flush();
    taken.extend(run(&mut enc.session, 7));
    assert_eq!(taken, input);
    let mut times = Vec::new();
    while let Ok(pkt) = enc.session.receive_packet() {
        times.push(pkt.pts.unwrap());
    }
    assert_eq!(times, vec![0, 4096, 8192]);
    assert_eq!(enc.session.sink.pts, 8192 + 10);
    assert!(matches!(enc.session.receive_packet(), Err(Error::Eof)));
}

#[test]
fn an_alac_tail_of_less_than_a_sample_is_dropped() {
    let mut enc = alac_encoder::make_encoder(&params_alac_48k_stereo()).expect("make_encoder");
    enc.session.send_frame(&pcm(vec![1, 2, 3])).expect("send");
    enc.session.flush();
    assert!(enc.session.next_fill().is_none());
    assert!(matches!(enc.session.receive_packet(), Err(Error::Eof)));
}

#[test]
fn a_failed_alac_fill_is_reported() {
    let mut enc = alac_encoder::make_encoder(&params_alac_48k_stereo()).expect("make_encoder");
    enc.session.send_frame(&pcm(vec![0; 4096 * 4])).expect("send");
    assert!(enc.session.next_fill().is_some());
    assert_eq!(
        message(enc.session.filled(failure())),
        "AudioConverterFillComplexBuffer (ALAC enc) failed: kAudio_ParamError (-50)"
    );
    assert!(enc.session.next_fill().is_none());
}

// FLAC

fn params_flac_48k_stereo() -> CodecParameters {
    let mut p = CodecParameters::audio("flac");
    p.sample_rate = Some(48_000);
    p.channels = Some(2);
    p.sample_format = Some(SampleFormat::S16);
    p
}

#[test]
fn make_encoder_succeeds_s16() {
    let r = flac_encoder::make_encoder(&params_flac_48k_stereo());
    assert!(r.is_ok(), "make_encoder failed: {:?}", r.err());
}

#[test]
fn make_encoder_succeeds_s32() {
    let mut p = params_flac_48k_stereo();
    p.sample_format = Some(SampleFormat::S32);
    let r = flac_encoder::make_encoder(&p);
    assert!(r.is_ok(), "make_encoder (S32) failed: {:?}", r.err());
}

#[test]
fn flac_encoder_make_encoder_rejects_unsupported_sample_format() {
    let mut p = params_flac_48k_stereo();
    p.sample_format = Some(SampleFormat::F32);
    let r = flac_encoder::make_encoder(&p);
    assert!(r.is_err(), "F32 input must be rejected (not S16/S32)");
    assert_eq!(
        message(r),
        "unsupported: FLAC encoder: only S16 / S32 input supported (got F32)"
    );
}

#[test]
fn make_encoder_rejects_too_many_channels() {
    let mut p = params_flac_48k_stereo();
    p.channels = Some(16);
    let r = flac_encoder::make_encoder(&p);
    assert!(r.is_err(), "16 channels must be rejected (cap is 8)");
    assert_eq!(
        message(r),
        "unsupported: FLAC encoder: unsupported channel count 16"
    );
}

#[test]
fn encoder_publishes_dfla_magic_cookie() {
    let enc = flac_encoder::make_encoder(&params_flac_48k_stereo()).expect("make_encoder");
    let cookie = &enc.output_params().extradata;
    assert!(
        cookie.len() >= flac::MAGIC_COOKIE_MIN_LEN,
        "cookie too short: {} bytes (need at least {})",
        cookie.len(),
        flac::MAGIC_COOKIE_MIN_LEN
    );
    assert!(
        cookie.len() <= flac::MAGIC_COOKIE_MAX_LEN,
        "cookie exceeds AT max: {} bytes",
        cookie.len()
    );
    assert_eq!(&cookie[4..8], b"dfLa", "cookie box type must be 'dfLa'");
    let info = flac::parse_magic_cookie(cookie).expect("cookie parses");
    assert_eq!(info.sample_rate, 48_000);
    assert_eq!(info.channels, 2);
    assert_eq!(info.bits_per_sample, 16);
}

#[test]
fn output_params_echo_input_format() {
    let enc = flac_encoder::make_encoder(&params_flac_48k_stereo()).expect("make_encoder");
    let op = enc.output_params();
    assert_eq!(op.sample_rate, Some(48_000));
    assert_eq!(op.channels, Some(2));
    assert_eq!(op.sample_format, Some(SampleFormat::S16));
}

#[test]
fn s32_cookie_declares_24bit_compressed_depth() {
    let mut p = params_flac_48k_stereo();
    p.sample_format = Some(SampleFormat::S32);
    let enc = flac_encoder::make_encoder(&p).expect("make_encoder S32");
    let cookie = &enc.output_params().extradata;
    let info = flac::parse_magic_cookie(cookie).expect("cookie parses");
    assert_eq!(
        info.bits_per_sample, 24,
        "S32 input must produce a 24-bit STREAMINFO bit_depth (AT cap)"
    );
}

#[test]
fn flac_keeps_a_packet_back_until_the_flush() {
    let mut enc = flac_encoder::make_encoder(&params_flac_48k_stereo()).expect("make_encoder");
    let size = 4096 * 4;
    assert_eq!(enc.session.max_packet_bytes, 4096 * 4 * 2 + 1024);
    let input: Vec<u8> = (0..size * 3 + 8).map(|i| (i % 249) as u8).collect();
    for chunk in input.chunks(1000) {
        enc.session.send_frame(&pcm(chunk.to_vec())).expect("send");
        while enc.session.next_fill().is_some() {
            let s = enc.session.supply(4096);
            assert_eq!(s.packets, 4096);
            assert!(enc.session.staging.remaining() >= size);
            enc.session.filled(packet(vec![1])).expect("filled");
        }
    }
    assert_eq!(enc.session.staging.remaining(), size + 8);
    enc.session.flush();
    let rest = run(&mut enc.session, 4096);
    assert_eq!(rest, input[2 * size..].to_vec());
    let mut times = Vec::new();
    while let Ok(pkt) = enc.session.receive_packet() {
        times.push(pkt.pts.unwrap());
    }
    assert_eq!(times, vec![0, 4096, 8192, 12288]);
    assert!(matches!(
        enc.session.send_frame(&pcm(vec![1])),
        Err(Error::Eof)
    ));
}

#[test]
fn a_flac_converter_that_names_no_number_gets_one_sample() {
    let mut enc = flac_encoder::make_encoder(&params_flac_48k_stereo()).expect("make_encoder");
    enc.session.send_frame(&pcm(vec![3; 4096 * 8])).expect("send");
    assert!(enc.session.next_fill().is_some());
    assert_eq!(enc.session.supply(0).packets, 1);
    assert_eq!(enc.session.staging.remaining(), 4096 * 8 - 4);
}

#[test]
fn flac_answers_with_nothing_are_no_packets() {
    let mut enc = flac_encoder::make_encoder(&params_flac_48k_stereo()).expect("make_encoder");
    enc.session.send_frame(&pcm(vec![3; 4096 * 8])).expect("send");
    assert!(enc.session.next_fill().is_some());
    enc.session.supply(4096);
    enc.session
        .filled(FillReply {
            status: 0,
            packets: 0,
            data: vec![1],
        })
        .expect("uncounted");
    assert!(matches!(enc.session.receive_packet(), Err(Error::NeedMore)));
    enc.session.max_packet_size_answered(Some(1));
    assert_eq!(enc.session.max_packet_bytes, 256);
}

// iLBC

fn params_ilbc(mode: &str) -> CodecParameters {
    let mut p = CodecParameters::audio("ilbc");
    p.sample_rate = Some(8_000);
    p.channels = Some(1);
    p.sample_format = Some(SampleFormat::S16);
    p.options.insert("mode", mode);
    p
}

#[test]
fn make_encoder_succeeds_30ms() {
    let r = ilbc_encoder::make_encoder(&params_ilbc("30"));
    assert!(r.is_ok(), "iLBC 30 ms make_encoder failed: {:?}", r.err());
}

#[test]
fn make_encoder_succeeds_20ms() {
    let r = ilbc_encoder::make_encoder(&params_ilbc("20"));
    assert!(r.is_ok(), "iLBC 20 ms make_encoder failed: {:?}", r.err());
    assert_eq!(
        r.unwrap().setup.create_op,
        "AudioConverterNew (iLBC enc, mode=Ms20)"
    );
}

#[test]
fn make_encoder_default_mode_is_30ms() {
    let mut p = CodecParameters::audio("ilbc");
    p.sample_rate = Some(8_000);
    p.channels = Some(1);
    let enc = ilbc_encoder::make_encoder(&p).expect("encoder construct");
    let mode_tag = enc
        .output_params()
        .options
        .get("mode")
        .expect("mode in output params");
    assert_eq!(mode_tag, "30");
}

#[test]
fn make_encoder_publishes_bitrate_30ms() {
    let enc = ilbc_encoder::make_encoder(&params_ilbc("30")).expect("encoder construct");
    let br = enc.output_params().bit_rate.expect("bit_rate published");
    assert_eq!(br, 13_333);
}

#[test]
fn make_encoder_publishes_bitrate_20ms() {
    let enc = ilbc_encoder::make_encoder(&params_ilbc("20")).expect("encoder construct");
    let br = enc.output_params().bit_rate.expect("bit_rate published");
    assert_eq!(br, 15_200);
}

#[test]
fn make_encoder_rejects_bad_sample_rate() {
    let mut p = params_ilbc("30");
    p.sample_rate = Some(16_000);
    let r = ilbc_encoder::make_encoder(&p);
    assert!(r.is_err(), "iLBC must reject non-8 kHz");
    assert_eq!(
        message(r),
        "unsupported: iLBC encoder: sample_rate must be 8000 (got 16000)"
    );
}

#[test]
fn make_encoder_rejects_stereo() {
    let mut p = params_ilbc("30");
    p.channels = Some(2);
    let r = ilbc_encoder::make_encoder(&p);
    assert!(r.is_err(), "iLBC must reject stereo");
    assert_eq!(
        message(r),
        "unsupported: iLBC encoder: channels must be 1 (got 2)"
    );
}

#[test]
fn ilbc_fills_up_its_last_block() {
    let mut enc = ilbc_encoder::make_encoder(&params_ilbc("20")).expect("encoder construct");
    enc.session.send_frame(&pcm(vec![4; 500])).expect("send");
    let mut taken = run(&mut enc.session, 0);
    assert_eq!(taken, vec![4; 320]);
    enc.session.flush();
    taken = run(&mut enc.session, 1000);
    let mut expected = vec![4; 180];
    expected.resize(320, 0);
    assert_eq!(taken, expected);
    assert_eq!(enc.session.receive_packet().expect("first").pts, Some(0));
    assert_eq!(enc.session.receive_packet().expect("last").pts, Some(160));
    assert!(matches!(enc.session.receive_packet(), Err(Error::Eof)));
}

#[test]
fn float_frames_are_told_by_their_size() {
    assert!(holds_floats(160, 640));
    assert!(!holds_floats(160, 320));
    assert!(!holds_floats(0, 0));
}

// Opus

fn params_opus_48k_stereo() -> CodecParameters {
    let mut p = CodecParameters::audio("opus");
    p.sample_rate = Some(48_000);
    p.channels = Some(2);
    p.sample_format = Some(SampleFormat::S16);
    p
}

#[test]
fn make_encoder_succeeds_s16_48k_stereo() {
    let r = opus_encoder::make_encoder(&params_opus_48k_stereo());
    assert!(r.is_ok(), "make_encoder failed: {:?}", r.err());
}

#[test]
fn make_encoder_succeeds_s16_48k_mono() {
    let mut p = params_opus_48k_stereo();
    p.channels = Some(1);
    assert!(opus_encoder::make_encoder(&p).is_ok());
}

#[test]
fn make_encoder_rejects_invalid_rate() {
    let mut p = params_opus_48k_stereo();
    p.sample_rate = Some(44_100);
    let r = opus_encoder::make_encoder(&p);
    assert!(
        r.is_err(),
        "44.1 kHz must be rejected (Opus rates: 8/12/16/24/48 kHz)"
    );
    assert_eq!(
        message(r),
        "unsupported: Opus encoder: input rate 44100 Hz is not one of 8000 / 12000 / 16000 / \
         24000 / 48000 (RFC 6716 §2.1.1)"
    );
}

#[test]
fn opus_encoder_make_encoder_rejects_unsupported_sample_format() {
    let mut p = params_opus_48k_stereo();
    p.sample_format = Some(SampleFormat::S32);
    let r = opus_encoder::make_encoder(&p);
    assert!(
        r.is_err(),
        "S32 input must be rejected (only S16/F32 supported)"
    );
    assert_eq!(
        message(r),
        "unsupported: Opus encoder: only S16 / F32 input supported (got S32)"
    );
}

#[test]
fn opus_refuses_three_channels() {
    let mut p = params_opus_48k_stereo();
    p.channels = Some(3);
    assert_eq!(
        message(opus_encoder::make_encoder(&p)),
        "unsupported: Opus encoder (mapping family 0): channel count 3 out of range (1..=2)"
    );
}

#[test]
fn output_params_publish_opus_head_cookie() {
    let enc = opus_encoder::make_encoder(&params_opus_48k_stereo()).expect("make_encoder");
    let cookie = &enc.output_params().extradata;
    assert!(
        cookie.len() >= OPUS_HEAD_MIN_LEN,
        "cookie too short: {} bytes (need at least {})",
        cookie.len(),
        OPUS_HEAD_MIN_LEN
    );
    assert_eq!(
        &cookie[0..8],
        &OPUS_HEAD_MAGIC,
        "cookie must start with the OpusHead magic signature"
    );
    let head = OpusHead::parse(cookie).expect("head");
    assert_eq!(head.channel_count, 2);
    assert_eq!(head.input_sample_rate, 48_000);
}

#[test]
fn opus_publishes_a_header_and_nothing_else() {
    let mut enc = opus_encoder::make_encoder(&params_opus_48k_stereo()).expect("make_encoder");
    let own = enc.output_params().extradata.clone();
    enc.cookie_answered(Ok(vec![0; 28]));
    assert_eq!(enc.output_params().extradata, own);
    enc.cookie_answered(Err(Error::NeedMore));
    assert_eq!(enc.output_params().extradata, own);
    let head = OpusHead::mono(16_000).to_packet_bytes();
    enc.cookie_answered(Ok(head.clone()));
    assert_eq!(enc.output_params().extradata, head);
}

#[test]
fn output_params_publish_bit_rate() {
    let mut enc = opus_encoder::make_encoder(&params_opus_48k_stereo()).expect("make_encoder");
    let br = enc
        .output_params()
        .bit_rate
        .expect("bit_rate must be published");
    assert!(br > 0, "published bit_rate must be positive (got {br})");
    assert_eq!(br, 96_000);
    enc.bit_rate_answered(Some(64_000));
    assert_eq!(enc.output_params().bit_rate, Some(64_000));
    enc.bit_rate_answered(None);
    assert_eq!(enc.output_params().bit_rate, Some(96_000));
}

#[test]
fn default_frame_length_is_20ms() {
    let enc = OpusAtEncoder::new(&params_opus_48k_stereo()).expect("encoder construct");
    assert_eq!(enc.frames_per_packet(), DEFAULT_FRAMES_PER_PACKET_48K);
    assert_eq!(enc.sample_rate(), 48_000);
    let d = enc
        .output_params()
        .options
        .get("frame_duration_ms")
        .expect("frame_duration_ms echoed");
    assert_eq!(d, "20");
}

#[test]
fn frame_duration_override_10ms() {
    let mut p = params_opus_48k_stereo();
    p.options.insert("frame_duration_ms", "10");
    let enc = OpusAtEncoder::new(&p).expect("encoder construct");
    assert_eq!(enc.frames_per_packet(), 480);
}

#[test]
fn frame_duration_override_60ms_max() {
    let mut p = params_opus_48k_stereo();
    p.options.insert("frame_duration_ms", "60");
    let enc = OpusAtEncoder::new(&p).expect("encoder construct");
    assert_eq!(enc.frames_per_packet(), 2880);
}

#[test]
fn frame_duration_rejects_invalid_value() {
    let mut p = params_opus_48k_stereo();
    p.options.insert("frame_duration_ms", "15");
    let r = OpusAtEncoder::new(&p);
    assert!(
        r.is_err(),
        "15 ms must be rejected (valid: 2.5/5/10/20/40/60)"
    );
    assert_eq!(
        message(r),
        "invalid data: Opus encoder: frame_duration_ms = \"15\" is not one of \
         2.5 / 5 / 10 / 20 / 40 / 60"
    );
}

#[test]
fn frame_durations_scale_with_the_rate() {
    let mut p = params_opus_48k_stereo();
    p.sample_rate = Some(16_000);
    for (text, samples, echo) in [
        ("2.5", 40, "2.5"),
        ("5.0", 80, "5"),
        ("1e1", 160, "10"),
        ("+020", 320, "20"),
        ("0.4e2", 640, "40"),
        ("6000e-2", 960, "60"),
    ] {
        p.options.insert("frame_duration_ms", text);
        let enc = OpusAtEncoder::new(&p).expect("encoder construct");
        assert_eq!(enc.frames_per_packet(), samples, "{text}");
        assert_eq!(
            enc.output_params().options.get("frame_duration_ms"),
            Some(echo)
        );
    }
}

#[test]
fn frame_durations_are_numerals() {
    assert_eq!(parse_frame_duration(None).expect("default"), 200);
    assert_eq!(parse_frame_duration(Some("2.500")).expect("2.5 ms"), 25);
    assert_eq!(parse_frame_duration(Some(".25E+1")).expect("2.5 ms"), 25);
    for text in ["", "+", ".", "ten", "1e", "10 ", "1.2.3", "e1", "1e1.0", "infin", "++inf"] {
        let reason = match text.parse::<f64>() {
            Ok(_) => panic!("{text:?} is a number"),
            Err(e) => e.to_string(),
        };
        let r = parse_frame_duration(Some(text));
        assert_eq!(
            message(r),
            format!(
                "invalid data: Opus encoder: frame_duration_ms = {text:?} is not a number \
                 ({reason})"
            )
        );
    }
    for text in [
        "0",
        "-20",
        "2.55",
        "61",
        "1e99999999999999999999999999999",
        "2e-400",
        "25e-2",
        "inf",
        "-Infinity",
        "+NaN",
    ] {
        let r = parse_frame_duration(Some(text));
        assert_eq!(
            message(r),
            format!(
                "invalid data: Opus encoder: frame_duration_ms = {text:?} is not one of \
                 2.5 / 5 / 10 / 20 / 40 / 60"
            )
        );
    }
    assert_eq!(
        message(parse_frame_duration(Some("\"\n"))),
        "invalid data: Opus encoder: frame_duration_ms = \"\\\"\\n\" is not a number \
         (invalid float literal)"
    );
    assert_eq!(
        message(parse_frame_duration(Some(""))),
        "invalid data: Opus encoder: frame_duration_ms = \"\" is not a number \
         (cannot parse float from empty string)"
    );
}

#[test]
fn opus_fills_up_its_last_packet() {
    let mut p = params_opus_48k_stereo();
    p.channels = Some(1);
    let mut enc = opus_encoder::make_encoder(&p).expect("make_encoder");
    enc.session.send_frame(&pcm(vec![8; 960 * 2 + 10])).expect("send");
    assert!(enc.session.next_fill().is_none());
    enc.session.flush();
    let taken = run(&mut enc.session, 960);
    let mut expected = vec![8; 960 * 2 + 10];
    expected.resize(960 * 4, 0);
    assert_eq!(taken, expected);
    assert_eq!(enc.session.receive_packet().expect("first").pts, Some(0));
    assert_eq!(enc.session.receive_packet().expect("last").pts, Some(960));
    assert!(matches!(enc.session.receive_packet(), Err(Error::Eof)));
    enc.session.max_packet_size_answered(Some(1275));
    assert_eq!(enc.session.max_packet_bytes, 1500);
}
