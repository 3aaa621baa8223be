//! AudioToolbox codec bridge: the framing, configuration and session rules of
//! the codecs that macOS's AudioToolbox decodes and encodes.
//!
//! The library decides what is asked of an AudioConverter and what its answers
//! mean. Every call into the framework itself is made outside of it.

pub mod adts;
pub mod alac;
pub mod alac_decoder;
pub mod alac_encoder;
pub mod amr;
pub mod amr_decoder;
pub mod amr_wb;
pub mod amr_wb_decoder;
pub mod bytes;
pub mod converter;
pub mod decoder;
pub mod encode;
pub mod encoder;
pub mod error;
pub mod feed;
pub mod flac;
pub mod flac_decoder;
pub mod flac_encoder;
pub mod ilbc;
pub mod ilbc_decoder;
pub mod ilbc_encoder;
pub mod inventory;
pub mod mp3;
pub mod mp3_decoder;
pub mod numeral;
pub mod opus;
pub mod opus_decoder;
pub mod opus_encoder;
pub mod params;
pub mod registry;
pub mod session;
pub mod status;
pub mod sys;
pub mod text;

pub use registry::register;
