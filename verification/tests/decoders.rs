//! The decoders: what they accept, and how their sessions run.

use oxideav_audiotoolbox::alac::AlacSpecificConfig;
use oxideav_audiotoolbox::alac_decoder::{self, AlacAtDecoder};
use oxideav_audiotoolbox::amr_decoder;
use oxideav_audiotoolbox::amr_wb::{make_toc, FrameType};
use oxideav_audiotoolbox::amr_wb_decoder::{self, AmrWbAtDecoder};
use oxideav_audiotoolbox::decoder;
use oxideav_audiotoolbox::error::Error;
use oxideav_audiotoolbox::flac::{self, ChannelAssignment, StreamInfo};
use oxideav_audiotoolbox::flac_decoder::{self, channel_layout_label};
use oxideav_audiotoolbox::ilbc::IlbcMode;
use oxideav_audiotoolbox::ilbc_decoder;
use oxideav_audiotoolbox::mp3::{FrameHeader, Layer, Version};
use oxideav_audiotoolbox::mp3_decoder::{self, Mp3AtDecoder};
use oxideav_audiotoolbox::opus::{OpusHead, DEFAULT_PRE_SKIP};
use oxideav_audiotoolbox::opus_decoder::{self, OpusAtDecoder};
use oxideav_audiotoolbox::params::{CodecParameters, SampleFormat};
use oxideav_audiotoolbox::session::{FillReply, SendStep};
use oxideav_audiotoolbox::sys::{
    K_AUDIO_FORMAT_MPEG4_AAC, K_AUDIO_FORMAT_MPEG4_AAC_HE, K_AUDIO_FORMAT_MPEG_LAYER_1,
    K_AUDIO_FORMAT_MPEG_LAYER_3,
};

fn message<T>(r: Result<T, Error>) -> String {
    match r {
        Ok(_) => panic!("expected an error"),
        Err(e) => e.message(),
    }
}

// ALAC

fn params_alac_48k_stereo() -> CodecParameters {
    let mut p = CodecParameters::audio("alac");
    p.sample_rate = Some(48_000);
    p.channels = Some(2);
    p.sample_format = Some(SampleFormat::S16);
    p
}

#[test]
fn make_decoder_succeeds_with_synthesised_cookie() {
    let r = alac_decoder::make_decoder(&params_alac_48k_stereo());
    assert!(r.is_ok(), "make_decoder failed: {:?}", r.err());
}

#[test]
fn make_decoder_succeeds_with_supplied_cookie() {
    let cfg = AlacSpecificConfig::new(44_100, 2, 16);
    let mut p = CodecParameters::audio("alac");
    p.sample_rate = Some(44_100);
    p.channels = Some(2);
    p.extradata = cfg.to_bytes().to_vec();
    let r = alac_decoder::make_decoder(&p);
    assert!(r.is_ok(), "make_decoder w/ cookie failed: {:?}", r.err());
}

#[test]
fn make_decoder_rejects_short_cookie() {
    let mut p = CodecParameters::audio("alac");
    p.sample_rate = Some(48_000);
    p.channels = Some(2);
    p.extradata = vec![0u8; 10];
    let r = alac_decoder::make_decoder(&p);
    assert!(r.is_ok(), "synthesise path should succeed: {:?}", r.err());
}

#[test]
fn default_output_is_s16() {
    let mut p = CodecParameters::audio("alac");
    p.sample_rate = Some(48_000);
    p.channels = Some(2);
    let made = alac_decoder::make_decoder(&p).expect("make_decoder");
    let dec = AlacAtDecoder::new(&p).expect("AlacAtDecoder::new");
    assert_eq!(dec.output_sample_format(), SampleFormat::S16);
    assert_eq!(dec.output_bytes_per_frame, 4);
    assert_eq!(made.output_sample_format(), SampleFormat::S16);
}

#[test]
fn explicit_s32_switches_output_width() {
    let mut p = CodecParameters::audio("alac");
    p.sample_rate = Some(48_000);
    p.channels = Some(2);
    p.sample_format = Some(SampleFormat::S32);
    let dec = AlacAtDecoder::new(&p).expect("AlacAtDecoder::new (S32)");
    assert_eq!(dec.output_sample_format(), SampleFormat::S32);
    assert_eq!(dec.output_bytes_per_frame, 8);
}

#[test]
fn s32_with_24bit_cookie_accepted() {
    let cfg = AlacSpecificConfig::new(96_000, 2, 24);
    let mut p = CodecParameters::audio("alac");
    p.sample_rate = Some(96_000);
    p.channels = Some(2);
    p.sample_format = Some(SampleFormat::S32);
    p.extradata = cfg.to_bytes().to_vec();
    let dec = AlacAtDecoder::new(&p).expect("AlacAtDecoder::new (24-bit → S32)");
    assert_eq!(dec.output_sample_format(), SampleFormat::S32);
    assert_eq!(dec.cfg.bit_depth, 24);
}

#[test]
fn alac_packets_become_frames() {
    let mut dec = alac_decoder::make_decoder(&params_alac_48k_stereo()).expect("decoder");
    let request = dec.send_packet(&[1, 2, 3]).expect("packet").expect("fill");
    assert_eq!(request.packets, 4096);
    assert_eq!(request.capacity, 4096 * 4);
    let s = dec.supply();
    assert_eq!(s.packets, 1);
    assert_eq!(s.list.buffers[0].data, vec![1, 2, 3]);
    assert_eq!(dec.supply().packets, 0);
    dec.filled(FillReply { status: 0, packets: 2, data: vec![7; 8] }).expect("filled");
    let frame = dec.receive_frame().expect("frame");
    assert_eq!(frame.samples, 2);
    assert_eq!(frame.pts, Some(0));
    assert_eq!(frame.data, vec![vec![7u8; 8]]);
    assert!(matches!(dec.receive_frame(), Err(Error::NeedMore)));
    dec.flush();
    assert!(matches!(dec.receive_frame(), Err(Error::Eof)));
    assert!(matches!(dec.send_packet(&[1]), Err(Error::Eof)));
}

// AMR

fn params_amr_wb() -> CodecParameters {
    let mut p = CodecParameters::audio("amr_wb");
    p.sample_rate = Some(16_000);
    p.channels = Some(1);
    p
}

#[test]
fn amr_wb_decoder_make_decoder_succeeds() {
    let r = amr_wb_decoder::make_decoder(&params_amr_wb());
    assert!(r.is_ok(), "AMR-WB make_decoder failed: {:?}", r.err());
}

#[test]
fn amr_wb_decoder_make_decoder_rejects_bad_sample_rate() {
    let mut p = params_amr_wb();
    p.sample_rate = Some(8_000);
    let r = amr_wb_decoder::make_decoder(&p);
    assert!(r.is_err(), "AMR-WB must reject non-16 kHz");
}

#[test]
fn amr_wb_decoder_make_decoder_rejects_stereo() {
    let mut p = params_amr_wb();
    p.channels = Some(2);
    let r = amr_wb_decoder::make_decoder(&p);
    assert!(r.is_err(), "AMR-WB must reject stereo");
}

#[test]
fn send_packet_rejects_reserved_frame_type() {
    let mut dec = AmrWbAtDecoder::new(&params_amr_wb()).expect("decoder construct");
    let bad_toc = (10u8 << 3) | 0b100;
    let r = dec.send_packet(&[bad_toc; 17]);
    assert!(r.is_err(), "must reject reserved FT=10");
}

#[test]
fn send_packet_rejects_size_mismatch() {
    let mut dec = AmrWbAtDecoder::new(&params_amr_wb()).expect("decoder construct");
    let toc = make_toc(FrameType::Mr660);
    let r = dec.send_packet(&[toc; 16]);
    assert!(r.is_err(), "must reject size mismatch");
}

#[test]
fn send_packet_accepts_no_data_frame() {
    let mut dec = AmrWbAtDecoder::new(&params_amr_wb()).expect("decoder construct");
    let toc = make_toc(FrameType::NoData);
    let r = dec.send_packet(&[toc]);
    assert!(r.is_ok(), "NO_DATA packet should queue without error");
}

#[test]
fn send_packet_accepts_sid_frame() {
    let mut dec = AmrWbAtDecoder::new(&params_amr_wb()).expect("decoder construct");
    let toc = make_toc(FrameType::Sid);
    let r = dec.send_packet(&[toc; 6]);
    assert!(r.is_ok(), "SID packet should queue without error");
}

#[test]
fn send_packet_accepts_speech_mode_packets() {
    let mut dec = AmrWbAtDecoder::new(&params_amr_wb()).expect("decoder construct");
    let modes = [
        FrameType::Mr660,
        FrameType::Mr885,
        FrameType::Mr1265,
        FrameType::Mr1425,
        FrameType::Mr1585,
        FrameType::Mr1825,
        FrameType::Mr1985,
        FrameType::Mr2305,
        FrameType::Mr2385,
    ];
    for ft in modes {
        let toc = make_toc(ft);
        let mut buf = vec![toc];
        buf.resize(ft.bytes_per_packet(), 0);
        let r = dec.send_packet(&buf);
        assert!(r.is_ok(), "{ft:?} packet should queue: {:?}", r.err());
    }
}

#[test]
fn amr_nb_checks_its_packets_too() {
    let mut p = CodecParameters::audio("amr_nb");
    p.sample_rate = Some(8_000);
    let mut dec = amr_decoder::make_decoder(&p).expect("decoder");
    let toc = oxideav_audiotoolbox::amr::make_toc(oxideav_audiotoolbox::amr::FrameType::Mr122);
    let mut packet = vec![toc];
    packet.resize(32, 0);
    assert!(dec.send_packet(&packet).is_ok());
    packet.pop();
    assert!(matches!(dec.send_packet(&packet), Err(Error::InvalidData(_))));
    p.sample_rate = Some(16_000);
    assert!(matches!(
        amr_decoder::make_decoder(&p),
        Err(Error::Unsupported(_))
    ));
}

#[test]
fn streaming_keeps_one_packet_and_a_flush_drains_it() {
    let mut dec = AmrWbAtDecoder::new(&params_amr_wb()).expect("decoder construct");
    let toc = make_toc(FrameType::NoData);
    dec.send_packet(&[toc]).expect("first");
    assert!(dec.session.next_fill().is_none());
    dec.send_packet(&[toc]).expect("second");
    let request = dec.session.next_fill().expect("fill");
    assert_eq!(request.packets, 320);
    assert_eq!(request.capacity, 640);
    assert_eq!(dec.supply().list.buffers[0].data, vec![toc]);
    dec.session
        .filled(FillReply { status: 0, packets: 320, data: vec![0; 640] })
        .expect("filled");
    assert!(dec.session.next_fill().is_none());
    dec.session.begin_flush();
    assert!(dec.session.next_fill().is_some());
    assert_eq!(dec.supply().packets, 1);
    dec.session
        .filled(FillReply { status: 0, packets: 320, data: vec![1; 640] })
        .expect("filled");
    assert!(dec.session.next_fill().is_some());
    assert_eq!(dec.supply().packets, 0);
    dec.session
        .filled(FillReply { status: 0, packets: 0, data: Vec::new() })
        .expect("dry");
    assert!(dec.session.next_fill().is_none());
    let a = dec.session.receive_frame().expect("first frame");
    let b = dec.session.receive_frame().expect("second frame");
    assert_eq!((a.samples, a.pts), (320, Some(0)));
    assert_eq!((b.samples, b.pts), (320, Some(320)));
    assert!(matches!(dec.session.receive_frame(), Err(Error::Eof)));
}

#[test]
fn a_failed_fill_is_reported_by_its_status() {
    let mut dec = AmrWbAtDecoder::new(&params_amr_wb()).expect("decoder construct");
    let toc = make_toc(FrameType::NoData);
    dec.send_packet(&[toc]).expect("first");
    dec.send_packet(&[toc]).expect("second");
    assert!(dec.session.next_fill().is_some());
    let r = dec.session.filled(FillReply {
        status: i32::from_be_bytes(*b"bada"),
        packets: 0,
        data: Vec::new(),
    });
    assert!(message(r).ends_with("kAudioCodecBadDataError ('bada' / 1650549857)"));
    assert!(dec.session.next_fill().is_none());
}

// AAC

fn params_audio_48k() -> CodecParameters {
    let mut p = CodecParameters::audio("aac");
    p.sample_rate = Some(48_000);
    p.channels = Some(2);
    p
}

#[test]
fn make_decoder_returns_ok_when_framework_loads() {
    let r = decoder::make_decoder(&params_audio_48k());
    assert!(r.is_ok(), "make_decoder should succeed: {:?}", r.err());
}

#[test]
fn adts_packets_open_the_converter_and_lose_their_header() {
    let mut dec = decoder::make_decoder(&params_audio_48k()).expect("decoder");
    let header = oxideav_audiotoolbox::adts::build_header(3, 4, 2, 1);
    let mut packet = header.to_vec();
    packet.extend_from_slice(&[9, 8, 7]);
    let step = dec.send_packet(&packet).expect("packet");
    let setup = match step {
        SendStep::Open(setup) => setup,
        SendStep::Queued => panic!("the converter does not exist yet"),
    };
    assert_eq!(setup.source.format_id, K_AUDIO_FORMAT_MPEG4_AAC);
    assert_eq!(setup.source.sample_rate, 44_100);
    assert_eq!(setup.source.channels_per_frame, 2);
    assert_eq!(setup.create_op, "AudioConverterNew (profile=Lc)");
    dec.opened(0, 0).expect("opened");
    assert_eq!(dec.supply().list.buffers[0].data, vec![9, 8, 7]);
    packet.pop();
    assert!(matches!(dec.send_packet(&packet), Err(Error::NeedMore)));
    assert!(matches!(
        dec.send_packet(&[0; 7]),
        Err(Error::InvalidData(_))
    ));
}

#[test]
fn he_aac_needs_a_cookie_and_doubles_the_rate() {
    let mut p = params_audio_48k();
    p.sample_rate = Some(24_000);
    p.options.insert("profile", "he");
    let mut dec = decoder::make_decoder(&p).expect("decoder");
    assert!(dec.send_packet(&[1, 2, 3]).is_err());
    p.extradata = vec![0x13, 0x10];
    let mut dec = decoder::make_decoder(&p).expect("decoder");
    let setup = match dec.send_packet(&[1, 2, 3]).expect("packet") {
        SendStep::Open(setup) => setup,
        SendStep::Queued => panic!("the converter does not exist yet"),
    };
    assert_eq!(setup.source.format_id, K_AUDIO_FORMAT_MPEG4_AAC_HE);
    assert_eq!(setup.source.sample_rate, 48_000);
    assert_eq!(setup.source.frames_per_packet, 2048);
    assert_eq!(setup.cookie, vec![0x13, 0x10]);
    let r = dec.opened(i32::from_be_bytes(*b"fmt?"), 0);
    assert_eq!(
        message(r),
        "unsupported: AudioConverterNew (profile=He) failed: \
         kAudioConverterErr_FormatNotSupported ('fmt?' / 1718449215)"
    );
}

#[test]
fn a_failed_creation_does_not_change_the_rate() {
    let mut p = params_audio_48k();
    p.sample_rate = Some(22_050);
    p.extradata = vec![0x13, 0x88];
    for option in ["he", "he-v2"] {
        p.options.insert("profile", option);
        let mut dec = decoder::make_decoder(&p).expect("decoder");
        for (created, cookie) in [(-50, 0), (0, -50), (0, 0)] {
            match dec.send_packet(&[1, 2, 3]).expect("packet") {
                SendStep::Open(setup) => assert_eq!(setup.source.sample_rate, 44_100),
                SendStep::Queued => panic!("the converter does not exist yet"),
            }
            assert_eq!(dec.sample_rate, 22_050);
            let opened = dec.opened(created, cookie);
            assert_eq!(opened.is_ok(), created == 0 && cookie == 0);
        }
        assert_eq!(dec.sample_rate, 44_100);
        assert_eq!(dec.session.geometry.bytes_per_frame, 8);
    }
}

// FLAC

fn params_flac_44100_stereo_16bit() -> CodecParameters {
    let mut p = CodecParameters::audio("flac");
    p.sample_rate = Some(44_100);
    p.channels = Some(2);
    p.sample_format = Some(SampleFormat::S16);
    p
}

#[test]
fn make_decoder_succeeds_without_cookie() {
    let r = flac_decoder::make_decoder(&params_flac_44100_stereo_16bit());
    assert!(r.is_ok(), "make_decoder failed: {:?}", r.err());
}

#[test]
fn make_decoder_succeeds_with_full_cookie() {
    let info = StreamInfo {
        min_blocksize: 4608,
        max_blocksize: 4608,
        min_framesize: 0,
        max_framesize: 0,
        sample_rate: 96_000,
        channels: 1,
        bits_per_sample: 24,
        total_samples: 0,
        md5: [0u8; 16],
    };
    let mut p = CodecParameters::audio("flac");
    p.extradata = flac::build_magic_cookie(&info);
    let r = flac_decoder::make_decoder(&p);
    assert!(r.is_ok(), "make_decoder w/ cookie failed: {:?}", r.err());
}

#[test]
fn make_decoder_accepts_bare_streaminfo_body_as_extradata() {
    let info = StreamInfo {
        min_blocksize: 4096,
        max_blocksize: 4096,
        min_framesize: 0,
        max_framesize: 0,
        sample_rate: 48_000,
        channels: 2,
        bits_per_sample: 16,
        total_samples: 0,
        md5: [0u8; 16],
    };
    let mut p = CodecParameters::audio("flac");
    p.extradata = info.to_bytes().to_vec();
    let r = flac_decoder::make_decoder(&p);
    assert!(
        r.is_ok(),
        "make_decoder w/ bare STREAMINFO failed: {:?}",
        r.err()
    );
}

#[test]
fn flac_refuses_a_cookie_that_begins_with_padding() {
    let mut p = params_flac_44100_stereo_16bit();
    let info = flac_decoder::make_decoder(&p).expect("decoder").info;
    let mut cookie = flac::build_magic_cookie(&info);
    cookie[3] = 58;
    let rest = cookie.split_off(12);
    cookie.extend_from_slice(&[1, 0, 0, 4, 0, 0, 0, 0]);
    cookie.extend_from_slice(&rest);
    p.extradata = cookie;
    assert_eq!(
        message(flac_decoder::make_decoder(&p)),
        "invalid data: FLAC: extradata is large enough for a cookie but failed to parse"
    );
}

#[test]
fn make_decoder_rejects_unsupported_sample_format() {
    let mut p = CodecParameters::audio("flac");
    p.sample_rate = Some(44_100);
    p.channels = Some(2);
    p.sample_format = Some(SampleFormat::U8);
    let r = flac_decoder::make_decoder(&p);
    assert!(r.is_err());
}

#[test]
fn send_packet_rejects_short_packet() {
    let mut dec =
        flac_decoder::make_decoder(&params_flac_44100_stereo_16bit()).expect("decoder");
    assert!(dec.send_packet(&[0xFF, 0xF8]).is_err());
}

#[test]
fn send_packet_rejects_invalid_sync() {
    let mut dec =
        flac_decoder::make_decoder(&params_flac_44100_stereo_16bit()).expect("decoder");
    assert!(dec.send_packet(&[0x00; 16]).is_err());
}

fn synth_frame_header_stereo_44100() -> Vec<u8> {
    let mut buf: Vec<u8> = vec![0xFF, 0xF8, (5 << 4) | 9, (8 << 4) | (4 << 1), 0x00];
    buf.extend_from_slice(&[0xAA; 16]);
    buf.push(0xBB);
    buf.push(0xCC);
    buf
}

#[test]
fn send_packet_rejects_mid_stream_channel_count_switch() {
    let mut dec =
        flac_decoder::make_decoder(&params_flac_44100_stereo_16bit()).expect("decoder");
    assert!(dec.send_packet(&synth_frame_header_stereo_44100()).is_ok());

    let mut bad = synth_frame_header_stereo_44100();
    bad[3] = 4 << 1;
    let r = dec.send_packet(&bad);
    assert!(r.is_err(), "must reject mid-stream channel-count switch");
}

#[test]
fn send_packet_rejects_mid_stream_bit_depth_switch() {
    let mut dec =
        flac_decoder::make_decoder(&params_flac_44100_stereo_16bit()).expect("decoder");
    assert!(dec.send_packet(&synth_frame_header_stereo_44100()).is_ok());

    let mut bad = synth_frame_header_stereo_44100();
    bad[3] = (8 << 4) | (6 << 1);
    let r = dec.send_packet(&bad);
    assert!(r.is_err(), "must reject mid-stream bit-depth switch");
}

#[test]
fn channel_layout_label_covers_each_assignment() {
    assert_eq!(
        channel_layout_label(ChannelAssignment::Independent(0)),
        "independent"
    );
    assert_eq!(
        channel_layout_label(ChannelAssignment::LeftSide),
        "left+side"
    );
    assert_eq!(
        channel_layout_label(ChannelAssignment::SideRight),
        "side+right"
    );
    assert_eq!(channel_layout_label(ChannelAssignment::MidSide), "mid+side");
}

// iLBC

fn params_ilbc(mode: &str) -> CodecParameters {
    let mut p = CodecParameters::audio("ilbc");
    p.sample_rate = Some(8_000);
    p.channels = Some(1);
    p.options.insert("mode", mode);
    p
}

#[test]
fn make_decoder_succeeds_30ms() {
    let r = ilbc_decoder::make_decoder(&params_ilbc("30"));
    assert!(r.is_ok(), "iLBC 30 ms make_decoder failed: {:?}", r.err());
}

#[test]
fn make_decoder_succeeds_20ms() {
    let r = ilbc_decoder::make_decoder(&params_ilbc("20"));
    assert!(r.is_ok(), "iLBC 20 ms make_decoder failed: {:?}", r.err());
    assert_eq!(r.unwrap().mode, IlbcMode::Ms20);
}

#[test]
fn make_decoder_default_mode_is_30ms() {
    let mut p = CodecParameters::audio("ilbc");
    p.sample_rate = Some(8_000);
    p.channels = Some(1);
    let r = ilbc_decoder::make_decoder(&p);
    assert!(
        r.is_ok(),
        "iLBC default-mode make_decoder failed: {:?}",
        r.err()
    );
    assert_eq!(r.unwrap().mode, IlbcMode::Ms30);
}

#[test]
fn ilbc_decoder_make_decoder_rejects_bad_sample_rate() {
    let mut p = params_ilbc("30");
    p.sample_rate = Some(48_000);
    let r = ilbc_decoder::make_decoder(&p);
    assert!(r.is_err(), "iLBC must reject non-8 kHz sample rate");
}

#[test]
fn ilbc_decoder_make_decoder_rejects_stereo() {
    let mut p = params_ilbc("30");
    p.channels = Some(2);
    let r = ilbc_decoder::make_decoder(&p);
    assert!(r.is_err(), "iLBC must reject stereo");
}

#[test]
fn ilbc_packets_are_as_long_as_their_mode_says() {
    let mut dec = ilbc_decoder::make_decoder(&params_ilbc("20")).expect("decoder");
    assert!(dec.send_packet(&[0; 38]).is_ok());
    assert_eq!(
        message(dec.send_packet(&[0; 50])),
        "invalid data: iLBC decoder: packet length 50 doesn't match mode Ms20 (38 bytes)"
    );
}

// MPEG audio

fn params_mp3() -> CodecParameters {
    let mut p = CodecParameters::audio("mp3");
    p.sample_rate = Some(44_100);
    p.channels = Some(2);
    p
}

fn synth_mp3_frame(
    version: Version,
    layer: Layer,
    bitrate_index: u8,
    sr_index: u8,
    padding: bool,
    channel_mode_bits: u8,
) -> Vec<u8> {
    let (ext, id) = match version {
        Version::Mpeg1 => (1u8, 1u8),
        Version::Mpeg2 => (1u8, 0u8),
        Version::Mpeg25 => (0u8, 0u8),
    };
    let layer_bits = match layer {
        Layer::LayerI => 0b11u8,
        Layer::LayerII => 0b10u8,
        Layer::LayerIII => 0b01u8,
    };
    let pad = if padding { 1u8 } else { 0u8 };
    let b0 = 0xFFu8;
    let b1 = (0b111u8 << 5) | (ext << 4) | (id << 3) | (layer_bits << 1) | 1u8;
    let b2 = (bitrate_index << 4) | (sr_index << 2) | (pad << 1);
    let b3 = (channel_mode_bits & 0b11) << 6;
    let header = [b0, b1, b2, b3];
    let parsed = FrameHeader::parse(header).expect("synthetic header parses");
    let mut buf = header.to_vec();
    buf.resize(parsed.frame_length, 0);
    buf
}

/// A decoder whose converter was opened by a first frame.
fn opened_mp3() -> Mp3AtDecoder {
    let mut dec = Mp3AtDecoder::new(&params_mp3()).expect("decoder construct");
    let first = synth_mp3_frame(Version::Mpeg1, Layer::LayerIII, 9, 0, false, 0b00);
    match dec.send_packet(&first).expect("first frame") {
        SendStep::Open(setup) => {
            assert_eq!(setup.source.format_id, K_AUDIO_FORMAT_MPEG_LAYER_3);
            assert_eq!(setup.source.frames_per_packet, 1152);
        }
        SendStep::Queued => panic!("the converter does not exist yet"),
    }
    dec.opened(0).expect("opened");
    dec
}

#[test]
fn mp3_decoder_make_decoder_succeeds() {
    let r = mp3_decoder::make_decoder(&params_mp3());
    assert!(r.is_ok(), "MP3 make_decoder failed: {:?}", r.err());
}

#[test]
fn send_packet_rejects_short_buffer() {
    let mut dec = Mp3AtDecoder::new(&params_mp3()).expect("decoder construct");
    let r = dec.send_packet(&[0xFF, 0xFB]);
    assert!(r.is_err(), "must reject too-short packet");
}

#[test]
fn send_packet_rejects_invalid_header() {
    let mut dec = Mp3AtDecoder::new(&params_mp3()).expect("decoder construct");
    let r = dec.send_packet(&[0x00; 417]);
    assert!(r.is_err(), "must reject non-MPEG-audio packet");
}

#[test]
fn send_packet_rejects_layer1_layer2() {
    let mut dec = Mp3AtDecoder::new(&params_mp3()).expect("decoder construct");
    let frame = synth_mp3_frame(Version::Mpeg1, Layer::LayerI, 1, 0, false, 0b00);
    assert!(matches!(
        dec.send_packet(&frame),
        Err(Error::Unsupported(_))
    ));

    let mut dec2 = Mp3AtDecoder::new(&params_mp3()).expect("decoder construct");
    let frame = synth_mp3_frame(Version::Mpeg1, Layer::LayerII, 3, 0, false, 0b00);
    assert!(matches!(
        dec2.send_packet(&frame),
        Err(Error::Unsupported(_))
    ));
}

#[test]
fn the_codec_id_says_which_layer_is_expected() {
    let mut dec = Mp3AtDecoder::new(&CodecParameters::audio("mp1")).expect("decoder construct");
    let frame = synth_mp3_frame(Version::Mpeg1, Layer::LayerI, 1, 0, false, 0b00);
    match dec.send_packet(&frame).expect("Layer I") {
        SendStep::Open(setup) => {
            assert_eq!(setup.source.format_id, K_AUDIO_FORMAT_MPEG_LAYER_1);
            assert_eq!(setup.source.frames_per_packet, 384);
        }
        SendStep::Queued => panic!("the converter does not exist yet"),
    }
    let mut dec = Mp3AtDecoder::new(&CodecParameters::audio("mp2")).expect("decoder construct");
    assert!(matches!(
        dec.send_packet(&frame),
        Err(Error::Unsupported(_))
    ));
}

#[test]
fn send_packet_rejects_packet_length_mismatch() {
    let mut dec = Mp3AtDecoder::new(&params_mp3()).expect("decoder construct");
    let mut buf = synth_mp3_frame(Version::Mpeg1, Layer::LayerIII, 9, 0, false, 0b00);
    buf.pop();
    let r = dec.send_packet(&buf);
    assert!(
        r.is_err(),
        "must reject packet length / frame-length mismatch"
    );
}

#[test]
fn send_packet_rejects_mid_stream_layer_switch() {
    let mut dec = opened_mp3();
    let r = dec.send_packet(&synth_mp3_frame(
        Version::Mpeg1,
        Layer::LayerII,
        10,
        0,
        false,
        0b00,
    ));
    assert!(r.is_err(), "must reject mid-stream layer switch");
}

#[test]
fn send_packet_rejects_mid_stream_sample_rate_switch() {
    let mut dec = opened_mp3();
    let r = dec.send_packet(&synth_mp3_frame(
        Version::Mpeg1,
        Layer::LayerIII,
        9,
        1,
        false,
        0b00,
    ));
    assert!(r.is_err(), "must reject mid-stream sample-rate switch");
}

#[test]
fn send_packet_rejects_mid_stream_channel_mode_switch() {
    let mut dec = opened_mp3();
    let r = dec.send_packet(&synth_mp3_frame(
        Version::Mpeg1,
        Layer::LayerIII,
        9,
        0,
        false,
        0b11,
    ));
    assert!(r.is_err(), "must reject mid-stream channel-mode switch");
}

#[test]
fn later_frames_are_checked_against_the_first() {
    let dec = opened_mp3();
    let header = |v, l, br, sr, pad, mode| {
        let f = synth_mp3_frame(v, l, br, sr, pad, mode);
        FrameHeader::parse([f[0], f[1], f[2], f[3]]).expect("header")
    };
    assert!(dec
        .check_compatible(&header(Version::Mpeg1, Layer::LayerIII, 14, 0, true, 0b00))
        .is_ok());
    for (version, layer, sr, mode) in [
        (Version::Mpeg2, Layer::LayerIII, 0, 0b00),
        (Version::Mpeg1, Layer::LayerII, 0, 0b00),
        (Version::Mpeg1, Layer::LayerIII, 2, 0b00),
        (Version::Mpeg1, Layer::LayerIII, 0, 0b01),
    ] {
        assert!(matches!(
            dec.check_compatible(&header(version, layer, 9, sr, false, mode)),
            Err(Error::Unsupported(_))
        ));
    }
}

#[test]
fn send_packet_allows_bitrate_change_vbr() {
    let mut dec = opened_mp3();
    let r = dec.send_packet(&synth_mp3_frame(
        Version::Mpeg1,
        Layer::LayerIII,
        11,
        0,
        false,
        0b00,
    ));
    assert!(
        r.is_ok(),
        "VBR (bitrate-only change) must be accepted: {:?}",
        r.err()
    );
}

// Opus

fn params_opus_48k_stereo() -> CodecParameters {
    let mut p = CodecParameters::audio("opus");
    p.sample_rate = Some(48_000);
    p.channels = Some(2);
    p
}

#[test]
fn make_decoder_succeeds_48k_stereo_no_cookie() {
    let r = opus_decoder::make_decoder(&params_opus_48k_stereo());
    assert!(r.is_ok(), "make_decoder failed: {:?}", r.err());
}

#[test]
fn make_decoder_succeeds_48k_mono_no_cookie() {
    let mut p = params_opus_48k_stereo();
    p.channels = Some(1);
    assert!(opus_decoder::make_decoder(&p).is_ok());
}

#[test]
fn make_decoder_succeeds_with_cookie() {
    let mut p = params_opus_48k_stereo();
    p.extradata = OpusHead::stereo(48_000).to_packet_bytes();
    let dec = opus_decoder::make_decoder(&p);
    assert!(dec.is_ok());
    assert_eq!(dec.unwrap().setup.cookie, p.extradata);
}

#[test]
fn make_decoder_rejects_mapping_family_1() {
    let mut p = params_opus_48k_stereo();
    let head = OpusHead {
        version: 1,
        channel_count: 6,
        pre_skip: 3_840,
        input_sample_rate: 48_000,
        output_gain: 0,
        channel_mapping_family: 1,
        mapping_table: vec![4, 2, 0, 4, 1, 2, 3, 5],
    };
    assert_eq!(DEFAULT_PRE_SKIP, 3_840);
    p.extradata = head.to_packet_bytes();
    p.channels = Some(6);
    let r = opus_decoder::make_decoder(&p);
    assert!(r.is_err(), "mapping family 1 should be rejected");
}

#[test]
fn channel_counts_are_not_cut_to_a_byte() {
    let mut p = params_flac_44100_stereo_16bit();
    for n in [0, 9, 256, 257] {
        p.channels = Some(n);
        assert_eq!(
            message(flac_decoder::make_decoder(&p)),
            format!("unsupported: FLAC decoder: channel count {n} out of range (1..=8)")
        );
    }
    let mut p = params_opus_48k_stereo();
    for n in [3, 256, 257, 258] {
        p.channels = Some(n);
        assert_eq!(
            message(opus_decoder::make_decoder(&p)),
            format!(
                "unsupported: Opus decoder (mapping family 0): channel count {n} out of range \
                 (1..=2)"
            )
        );
    }
    let mut p = params_alac_48k_stereo();
    p.channels = Some(257);
    assert_eq!(
        message(alac_decoder::make_decoder(&p)),
        "unsupported: ALAC decoder: unsupported channel count 257"
    );
}

#[test]
fn make_decoder_rejects_zero_channels() {
    let mut p = params_opus_48k_stereo();
    p.channels = Some(0);
    assert!(opus_decoder::make_decoder(&p).is_err());
}

#[test]
fn make_decoder_rejects_invalid_output_rate() {
    let mut p = params_opus_48k_stereo();
    p.sample_rate = Some(44_100);
    let r = opus_decoder::make_decoder(&p);
    assert!(
        r.is_err(),
        "44.1 kHz must be rejected (Opus output rates: 8/12/16/24/48 kHz)"
    );
}

#[test]
fn opus_head_accessible_after_construct() {
    let dec = OpusAtDecoder::new(&params_opus_48k_stereo()).expect("decoder construct");
    assert_eq!(dec.opus_head().channel_count, 2);
    assert_eq!(dec.output_sample_rate(), 48_000);
}

#[test]
fn opus_rejects_a_malformed_cookie() {
    let mut p = params_opus_48k_stereo();
    p.extradata = vec![0; 19];
    assert_eq!(
        message(opus_decoder::make_decoder(&p)),
        "invalid data: Opus: malformed OpusHead in extradata"
    );
}
