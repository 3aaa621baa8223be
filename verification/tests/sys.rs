//! CoreAudio constants and stream descriptions.

use oxideav_audiotoolbox::sys::{
    AudioFormatId, AudioStreamBasicDescription, K_AF_APPLE_LOSSLESS_16_BIT,
    K_AF_APPLE_LOSSLESS_24_BIT, K_AF_FLAG_IS_FLOAT, K_AF_FLAG_IS_PACKED,
    K_AF_FLAG_IS_SIGNED_INTEGER, K_AUDIO_FORMAT_AMR, K_AUDIO_FORMAT_AMR_WB, K_AUDIO_FORMAT_FLAC,
    K_AUDIO_FORMAT_ILBC, K_AUDIO_FORMAT_LINEAR_PCM, K_AUDIO_FORMAT_MPEG4_AAC_ELD,
    K_AUDIO_FORMAT_MPEG4_AAC_LD, K_AUDIO_FORMAT_MPEG_LAYER_1, K_AUDIO_FORMAT_MPEG_LAYER_2,
    K_AUDIO_FORMAT_MPEG_LAYER_3, K_AUDIO_FORMAT_OPUS,
};

#[test]
fn asbd_pcm_float32_geometry() {
    let a = AudioStreamBasicDescription::pcm_float32(48_000, 2);
    assert_eq!(a.format_id, K_AUDIO_FORMAT_LINEAR_PCM);
    assert_eq!(a.bits_per_channel, 32);
    assert_eq!(a.bytes_per_frame, 8); // 2 channels × 4 bytes
    assert_eq!(a.frames_per_packet, 1);
}

#[test]
fn asbd_pcm_s32_geometry() {
    let a = AudioStreamBasicDescription::pcm_s32(48_000, 2);
    assert_eq!(a.format_id, K_AUDIO_FORMAT_LINEAR_PCM);
    assert_eq!(
        a.format_flags,
        K_AF_FLAG_IS_SIGNED_INTEGER | K_AF_FLAG_IS_PACKED
    );
    assert_eq!(a.bits_per_channel, 32);
    assert_eq!(a.bytes_per_frame, 8); // 2 channels × 4 bytes
    assert_eq!(a.bytes_per_packet, 8);
    assert_eq!(a.frames_per_packet, 1);
    assert_eq!(a.channels_per_frame, 2);
}

#[test]
fn asbd_pcm_s32_distinct_from_float32() {
    let s = AudioStreamBasicDescription::pcm_s32(48_000, 1);
    let f = AudioStreamBasicDescription::pcm_float32(48_000, 1);
    assert!(s.format_flags & K_AF_FLAG_IS_SIGNED_INTEGER != 0);
    assert!(f.format_flags & K_AF_FLAG_IS_FLOAT != 0);
    assert!(s.format_flags & K_AF_FLAG_IS_FLOAT == 0);
    assert!(f.format_flags & K_AF_FLAG_IS_SIGNED_INTEGER == 0);
}

#[test]
fn asbd_aac_ld_geometry() {
    let a = AudioStreamBasicDescription::mpeg4_aac_ld(48_000, 2);
    assert_eq!(a.format_id, K_AUDIO_FORMAT_MPEG4_AAC_LD);
    assert_eq!(a.frames_per_packet, 512); // low-delay core, no SBR doubling
    assert_eq!(a.channels_per_frame, 2);
    assert_eq!(a.bytes_per_packet, 0); // compressed, variable
}

#[test]
fn asbd_aac_eld_geometry() {
    let a = AudioStreamBasicDescription::mpeg4_aac_eld(48_000, 2);
    assert_eq!(a.format_id, K_AUDIO_FORMAT_MPEG4_AAC_ELD);
    assert_eq!(a.frames_per_packet, 512);
    assert_eq!(a.channels_per_frame, 2);
}

#[test]
fn asbd_ilbc_20ms_geometry() {
    let a = AudioStreamBasicDescription::ilbc(160);
    assert_eq!(a.format_id, K_AUDIO_FORMAT_ILBC);
    assert_eq!(a.sample_rate, 8_000);
    assert_eq!(a.channels_per_frame, 1);
    assert_eq!(a.frames_per_packet, 160);
    assert_eq!(a.bytes_per_packet, 38); // 20 ms iLBC packet
}

#[test]
fn asbd_ilbc_30ms_geometry() {
    let a = AudioStreamBasicDescription::ilbc(240);
    assert_eq!(a.format_id, K_AUDIO_FORMAT_ILBC);
    assert_eq!(a.frames_per_packet, 240);
    assert_eq!(a.bytes_per_packet, 50); // 30 ms iLBC packet
}

#[test]
fn ilbc_fourcc_value() {
    assert_eq!(K_AUDIO_FORMAT_ILBC, u32::from_be_bytes(*b"ilbc"));
}

#[test]
fn amr_fourcc_value() {
    assert_eq!(K_AUDIO_FORMAT_AMR, u32::from_be_bytes(*b"samr"));
}

#[test]
fn amr_wb_fourcc_value() {
    assert_eq!(K_AUDIO_FORMAT_AMR_WB, u32::from_be_bytes(*b"sawb"));
}

#[test]
fn asbd_amr_nb_geometry() {
    let a = AudioStreamBasicDescription::amr_nb();
    assert_eq!(a.format_id, K_AUDIO_FORMAT_AMR);
    assert_eq!(a.sample_rate, 8_000);
    assert_eq!(a.channels_per_frame, 1);
    assert_eq!(a.frames_per_packet, 160); // 20 ms @ 8 kHz
    assert_eq!(a.bytes_per_packet, 0); // variable per mode
}

#[test]
fn asbd_amr_wb_geometry() {
    let a = AudioStreamBasicDescription::amr_wb();
    assert_eq!(a.format_id, K_AUDIO_FORMAT_AMR_WB);
    assert_eq!(a.sample_rate, 16_000);
    assert_eq!(a.channels_per_frame, 1);
    assert_eq!(a.frames_per_packet, 320); // 20 ms @ 16 kHz
    assert_eq!(a.bytes_per_packet, 0); // variable per mode
}

#[test]
fn mpeg_layer_fourcc_values() {
    assert_eq!(K_AUDIO_FORMAT_MPEG_LAYER_1, u32::from_be_bytes(*b".mp1"));
    assert_eq!(K_AUDIO_FORMAT_MPEG_LAYER_2, u32::from_be_bytes(*b".mp2"));
    assert_eq!(K_AUDIO_FORMAT_MPEG_LAYER_3, u32::from_be_bytes(*b".mp3"));
}

#[test]
fn asbd_mp3_mpeg1_geometry() {
    let a = AudioStreamBasicDescription::mpeg_layer3(44_100, 2, 1152);
    assert_eq!(a.format_id, K_AUDIO_FORMAT_MPEG_LAYER_3);
    assert_eq!(a.sample_rate, 44_100);
    assert_eq!(a.channels_per_frame, 2);
    assert_eq!(a.frames_per_packet, 1152); // MPEG-1 Layer III
    assert_eq!(a.bytes_per_packet, 0); // compressed, variable per frame
}

#[test]
fn asbd_mp3_mpeg2_geometry() {
    let a = AudioStreamBasicDescription::mpeg_layer3(22_050, 1, 576);
    assert_eq!(a.format_id, K_AUDIO_FORMAT_MPEG_LAYER_3);
    assert_eq!(a.frames_per_packet, 576); // MPEG-2 LSF Layer III
}

#[test]
fn asbd_mp1_mp2_geometry_constants() {
    let a1 = AudioStreamBasicDescription::mpeg_layer1(44_100, 2);
    assert_eq!(a1.frames_per_packet, 384);
    let a2 = AudioStreamBasicDescription::mpeg_layer2(44_100, 2);
    assert_eq!(a2.frames_per_packet, 1152);
}

#[test]
fn ld_eld_fourcc_values() {
    assert_eq!(K_AUDIO_FORMAT_MPEG4_AAC_LD, u32::from_be_bytes(*b"aacl"));
    assert_eq!(K_AUDIO_FORMAT_MPEG4_AAC_ELD, u32::from_be_bytes(*b"aace"));
}

#[test]
fn flac_fourcc_value() {
    assert_eq!(K_AUDIO_FORMAT_FLAC, u32::from_be_bytes(*b"flac"));
}

#[test]
fn asbd_flac_geometry_16bit_stereo() {
    let a = AudioStreamBasicDescription::flac(44_100, 2, K_AF_APPLE_LOSSLESS_16_BIT, 4096);
    assert_eq!(a.format_id, K_AUDIO_FORMAT_FLAC);
    assert_eq!(a.sample_rate, 44_100);
    assert_eq!(a.channels_per_frame, 2);
    assert_eq!(a.frames_per_packet, 4096);
    assert_eq!(a.bytes_per_packet, 0); // compressed, variable per FLAC frame
    assert_eq!(a.format_flags, K_AF_APPLE_LOSSLESS_16_BIT);
    assert_eq!(a.bits_per_channel, 0);
}

#[test]
fn asbd_flac_geometry_24bit_mono() {
    let a = AudioStreamBasicDescription::flac(96_000, 1, K_AF_APPLE_LOSSLESS_24_BIT, 4608);
    assert_eq!(a.sample_rate, 96_000);
    assert_eq!(a.channels_per_frame, 1);
    assert_eq!(a.frames_per_packet, 4608); // RFC 9639 §9.1.2 Table 1 code 5
    assert_eq!(a.format_flags, K_AF_APPLE_LOSSLESS_24_BIT);
}

#[test]
fn opus_fourcc_value() {
    assert_eq!(K_AUDIO_FORMAT_OPUS, u32::from_be_bytes(*b"opus"));
}

#[test]
fn asbd_opus_geometry_48k_stereo_20ms() {
    let a = AudioStreamBasicDescription::opus(48_000, 2, 960);
    assert_eq!(a.format_id, K_AUDIO_FORMAT_OPUS);
    assert_eq!(a.sample_rate, 48_000);
    assert_eq!(a.channels_per_frame, 2);
    assert_eq!(a.frames_per_packet, 960);
    assert_eq!(a.bytes_per_packet, 0); // variable per packet
    assert_eq!(a.format_flags, 0); // "has no flags" per CoreAudioBaseTypes.h
    assert_eq!(a.bits_per_channel, 0);
}

#[test]
fn asbd_opus_geometry_48k_mono_2_5ms() {
    let a = AudioStreamBasicDescription::opus(48_000, 1, 120);
    assert_eq!(a.frames_per_packet, 120);
    assert_eq!(a.channels_per_frame, 1);
}

#[test]
fn asbd_opus_geometry_48k_60ms() {
    let a = AudioStreamBasicDescription::opus(48_000, 2, 2880);
    assert_eq!(a.frames_per_packet, 2880);
}

#[test]
fn formats_know_their_family_and_codec() {
    assert!(AudioFormatId::Mpeg4AacEld.is_aac_family());
    assert!(!AudioFormatId::Flac.is_aac_family());
    assert!(AudioFormatId::Flac.is_lossless());
    assert!(!AudioFormatId::Opus.is_lossless());
    assert!(AudioFormatId::AmrNb.is_compressed_audio());
    assert!(!AudioFormatId::LinearPcm.is_compressed_audio());
    assert_eq!(AudioFormatId::Mpeg4AacLc.fourcc_str(), "aac ");
    assert_eq!(AudioFormatId::MpegLayer3.fourcc_str(), ".mp3");
    assert_eq!(AudioFormatId::Unknown(0x7A00_7FFF).fourcc_str(), "z...");
    assert_eq!(AudioFormatId::Mpeg4AacHe.codec_id_str(), Some("aac"));
    assert_eq!(AudioFormatId::MpegLayer2.codec_id_str(), Some("mp2"));
    assert_eq!(AudioFormatId::LinearPcm.codec_id_str(), None);
    assert_eq!(AudioFormatId::Unknown(1).codec_id_str(), None);
}

#[test]
fn format_identifiers_round_trip() {
    for raw in [K_AUDIO_FORMAT_FLAC, K_AUDIO_FORMAT_AMR, 0, u32::MAX] {
        assert_eq!(AudioFormatId::from_u32(raw).as_u32(), raw);
    }
    assert_eq!(
        AudioFormatId::from_u32(K_AUDIO_FORMAT_OPUS),
        AudioFormatId::Opus
    );
}
