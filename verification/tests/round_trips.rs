//! What one half of the bridge writes, the other reads.

use oxideav_audiotoolbox::alac::AlacSpecificConfig;
use oxideav_audiotoolbox::decoder;
use oxideav_audiotoolbox::encoder::{self, AacProfile};
use oxideav_audiotoolbox::flac::{self, StreamInfo};
use oxideav_audiotoolbox::ilbc::IlbcMode;
use oxideav_audiotoolbox::mp3::{FrameHeader, Version};
use oxideav_audiotoolbox::opus::{OpusHead, Toc};
use oxideav_audiotoolbox::params::{CodecParameters, SampleFormat};
use oxideav_audiotoolbox::session::{AudioFrame, FillReply, Frame, SendStep};
use oxideav_audiotoolbox::status::AtStatus;
use oxideav_audiotoolbox::{
    alac_decoder, alac_encoder, flac_decoder, flac_encoder, ilbc_decoder, ilbc_encoder,
    opus_decoder, opus_encoder,
};

#[test]
fn aac_packets_reach_the_decoder_as_they_were_coded() {
    let mut p = CodecParameters::audio("aac");
    p.sample_rate = Some(44_100);
    p.channels = Some(1);
    p.sample_format = Some(SampleFormat::S16);
    let mut enc = encoder::make_encoder(&p).expect("encoder");
    enc.session
        .send_frame(&Frame::Audio(AudioFrame {
            samples: 1024,
            pts: None,
            data: vec![vec![0; 2048]],
        }))
        .expect("send");
    assert!(enc.session.next_fill().is_some());
    enc.session.supply(1024);
    let raw: Vec<u8> = (0..300).map(|i| (i % 256) as u8).collect();
    enc.session
        .filled(FillReply {
            status: 0,
            packets: 1,
            data: raw.clone(),
        })
        .expect("filled");
    let packet = enc.session.receive_packet().expect("packet");

    let mut dec = decoder::make_decoder(enc.output_params()).expect("decoder");
    match dec.send_packet(&packet.data).expect("packet") {
        SendStep::Open(setup) => {
            assert_eq!(setup.source.sample_rate, 44_100);
            assert_eq!(setup.source.channels_per_frame, 1);
        }
        SendStep::Queued => panic!("the converter does not exist yet"),
    }
    dec.opened(0, 0).expect("opened");
    assert_eq!(dec.supply().list.buffers[0].data, raw);
}

#[test]
fn published_profiles_open_the_same_decoder() {
    let profiles = [
        ("lc", AacProfile::Lc),
        ("HE", AacProfile::He),
        ("HEv2", AacProfile::HeV2),
        ("aac-ld", AacProfile::Ld),
        ("ELD", AacProfile::Eld),
    ];
    for (option, profile) in profiles {
        let mut p = CodecParameters::audio("aac");
        p.options.insert("profile", option);
        let enc = encoder::make_encoder(&p).expect("encoder");
        let dec = decoder::make_decoder(enc.output_params()).expect("decoder");
        assert_eq!(dec.profile, profile, "{option}");
    }
}

#[test]
fn published_modes_open_the_same_decoder() {
    for (option, mode) in [("20ms", IlbcMode::Ms20), ("30", IlbcMode::Ms30)] {
        let mut p = CodecParameters::audio("ilbc");
        p.options.insert("mode", option);
        let enc = ilbc_encoder::make_encoder(&p).expect("encoder");
        let dec = ilbc_decoder::make_decoder(enc.output_params()).expect("decoder");
        assert_eq!(dec.mode, mode);
    }
}

#[test]
fn published_cookies_open_their_decoders() {
    let mut p = CodecParameters::audio("flac");
    p.sample_rate = Some(96_000);
    p.channels = Some(6);
    p.sample_format = Some(SampleFormat::S32);
    let enc = flac_encoder::make_encoder(&p).expect("FLAC encoder");
    let dec = flac_decoder::make_decoder(enc.output_params()).expect("FLAC decoder");
    assert_eq!(dec.info.sample_rate, 96_000);
    assert_eq!(dec.info.channels, 6);
    assert_eq!(dec.info.bits_per_sample, 24);
    assert_eq!(dec.setup.cookie, enc.output_params().extradata);

    p.codec_id = "alac".to_string();
    let enc = alac_encoder::make_encoder(&p).expect("ALAC encoder");
    let dec = alac_decoder::make_decoder(enc.output_params()).expect("ALAC decoder");
    assert_eq!(dec.cfg, AlacSpecificConfig::new(96_000, 6, 32));
    assert_eq!(dec.setup.cookie, enc.output_params().extradata);

    let enc = opus_encoder::make_encoder(&CodecParameters::audio("opus")).expect("Opus encoder");
    let dec = opus_decoder::make_decoder(enc.output_params()).expect("Opus decoder");
    assert_eq!(dec.opus_head().pre_skip, 3_840);
    assert_eq!(dec.setup.cookie, enc.output_params().extradata);
}

#[test]
fn parsed_bytes_are_written_back() {
    let mut body: Vec<u8> = (1..=34).collect();
    body[13] = 0x70;
    let info = StreamInfo::parse(&body).expect("STREAMINFO");
    assert_eq!(info.to_bytes().to_vec(), body);

    let cookie: Vec<u8> = (200..224).map(|i| i as u8).collect();
    let config = AlacSpecificConfig::parse(&cookie).expect("cookie");
    assert_eq!(config.to_bytes().to_vec(), cookie);

    let mut head = b"OpusHead".to_vec();
    head.extend_from_slice(&[1, 2, 0x38, 1, 0x80, 0xBB, 0, 0, 0xFF, 0xFE, 0]);
    let parsed = OpusHead::parse(&head).expect("head");
    assert_eq!(parsed.output_gain, -257);
    assert_eq!(parsed.to_packet_bytes(), head);
}

#[test]
fn a_box_that_is_too_small_is_no_cookie() {
    let info = StreamInfo {
        min_blocksize: 16,
        max_blocksize: 65535,
        min_framesize: 0,
        max_framesize: 0xFF_FFFF,
        sample_rate: 655_350,
        channels: 8,
        bits_per_sample: 32,
        total_samples: 0xF_FFFF_FFFF,
        md5: [7; 16],
    };
    let mut cookie = flac::build_magic_cookie(&info);
    assert_eq!(flac::parse_magic_cookie(&cookie), Some(info));
    cookie[3] = 8;
    assert_eq!(flac::parse_magic_cookie(&cookie), None);
}

#[test]
fn padding_is_one_slot_for_every_layer() {
    for (layer_bits, slot) in [(0b11u8, 4usize), (0b10, 1), (0b01, 1)] {
        let b1 = 0xF8 | (layer_bits << 1) | 1;
        let plain = FrameHeader::parse([0xFF, b1, 0x90, 0]).expect("plain");
        let padded = FrameHeader::parse([0xFF, b1, 0x92, 0]).expect("padded");
        assert_eq!(plain.version, Version::Mpeg1);
        assert_eq!(padded.frame_length, plain.frame_length + slot);
    }
}

#[test]
fn opus_frame_sizes_follow_their_durations() {
    for config in 0..32u8 {
        let toc = Toc::parse(&[config << 3]).expect("toc");
        assert_eq!(
            toc.frame_size_at_48khz() * 10,
            toc.frame_duration_tenths_ms as u32 * 48
        );
    }
}

#[test]
fn statuses_that_differ_classify_apart() {
    let codes = [0, -50, 1650549857, 1718449215, 2, -9999];
    for a in codes {
        for b in codes {
            assert_eq!(AtStatus::from_raw(a) == AtStatus::from_raw(b), a == b);
        }
    }
}
