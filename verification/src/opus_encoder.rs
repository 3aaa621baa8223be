//! The Opus encoder: interleaved 16-bit or float PCM in, Opus packets out.

use vstd::prelude::*;
use vstd::string::*;

use crate::encode::{Demand, EncodeRules, EncodeSession, EncodeState};
use crate::error::{fails_with, Error, ErrorView};
use crate::numeral::{
    is_special, names_special, numeral_of, read_tenths, tenths_are_unique, Reading,
};
use crate::opus::{
    has_magic, head_of, head_packet_bytes, head_packet_round_trips, is_opus_rate,
    starts_with_magic, OpusHead, OpusHeadView, DEFAULT_PRE_SKIP,
};
use crate::params::{
    channels_of, empty_options, get_option, given_or, option_value, rate_of, set_option,
    CodecParameters, ParamsView, SampleFormat,
};
use crate::session::{ConverterSetup, SetupView};
use crate::sys::{
    compressed_format, float32_format, s16_format, AudioStreamBasicDescription,
    K_AUDIO_FORMAT_OPUS,
};
use crate::text::{decimal, join3, numbered, quoted, quoted_text};

verus! {

/// Bits per second unless the parameters say otherwise.
pub const DEFAULT_BIT_RATE: u32 = 96_000;

/// The Opus encoder.
#[derive(Debug)]
pub struct OpusAtEncoder {
    /// Identifier of the codec.
    pub codec_id: String,
    /// Sample rate in hertz.
    pub sample_rate: u32,
    /// Bits per second to ask of the converter.
    pub bit_rate: u32,
    /// The converter of the stream.
    pub setup: ConverterSetup,
    /// The session with the converter.
    pub session: EncodeSession,
    /// What the coded stream is.
    pub out_params: CodecParameters,
}

/// The durations of a packet, in tenths of a millisecond.
pub open spec fn is_duration(tenths: u32) -> bool {
    tenths == 25 || tenths == 50 || tenths == 100 || tenths == 200 || tenths == 400 || tenths
        == 600
}

/// The numeral of a duration.
pub open spec fn duration_label(tenths: u32) -> Seq<char> {
    if tenths == 25 {
        "2.5"@
    } else {
        decimal(tenths as nat / 10)
    }
}

/// The duration that an option names, in tenths of a millisecond: 20 ms where the
/// option is missing, none where it names no duration of a packet.
pub open spec fn names_duration(option: Option<Seq<char>>, tenths: u32) -> bool {
    match option {
        None => tenths == 200,
        Some(s) => is_duration(tenths) && numeral_of(s) is Some && numeral_of(s)->0.is_tenths(
            tenths as nat,
        ),
    }
}

/// An option names no duration of a packet.
pub open spec fn names_none(option: Option<Seq<char>>) -> bool {
    forall|tenths: u32| !#[trigger] names_duration(option, tenths)
}

/// Why an option is refused that names no duration of a packet.
pub open spec fn duration_refusal(s: Seq<char>) -> ErrorView {
    ErrorView::InvalidData(
        "Opus encoder: frame_duration_ms = "@ + quoted_text(s) + if numeral_of(s) is None
            && !is_special(s) {
            if s.len() == 0 {
                " is not a number (cannot parse float from empty string)"@
            } else {
                " is not a number (invalid float literal)"@
            }
        } else {
            " is not one of 2.5 / 5 / 10 / 20 / 40 / 60"@
        },
    )
}

/// The sample format that the parameters ask for.
pub open spec fn requested_format(params: CodecParameters) -> SampleFormat {
    given_or(params.sample_format, SampleFormat::S16)
}

/// The duration option of the parameters.
pub open spec fn duration_option(params: CodecParameters) -> Option<Seq<char>> {
    option_value(params.options, "frame_duration_ms"@)
}

/// Why parameters are refused for their sample rate, channels or sample format, if they
/// are.
pub open spec fn params_refusal(params: CodecParameters) -> Option<ErrorView> {
    let rate = rate_of(params);
    let channels = channels_of(params);
    let format = requested_format(params);
    if !is_opus_rate(rate) {
        Some(
            ErrorView::Unsupported(
                "Opus encoder: input rate "@ + decimal(rate as nat)
                    + " Hz is not one of 8000 / 12000 / 16000 / 24000 / 48000 (RFC 6716 §2.1.1)"@,
            ),
        )
    } else if !(1 <= channels <= 2) {
        Some(
            ErrorView::Unsupported(
                "Opus encoder (mapping family 0): channel count "@ + decimal(channels as nat)
                    + " out of range (1..=2)"@,
            ),
        )
    } else if !(format is S16 || format is F32) {
        Some(
            ErrorView::Unsupported(
                "Opus encoder: only S16 / F32 input supported (got "@ + format.label() + ")"@,
            ),
        )
    } else {
        None
    }
}

/// Samples in a packet.
pub open spec fn packet_samples(rate: u32, tenths: u32) -> u32 {
    (rate * tenths / 10_000) as u32
}

/// The bit rate to ask for: the low 32 bits of what the parameters say.
pub open spec fn requested_bit_rate(params: CodecParameters) -> u32 {
    (given_or(params.bit_rate, DEFAULT_BIT_RATE as u64) % 0x1_0000_0000) as u32
}

/// The header that the encoder publishes.
pub open spec fn stream_head(rate: u32, channels: u16) -> OpusHeadView {
    OpusHeadView {
        version: 1,
        channel_count: channels as u8,
        pre_skip: DEFAULT_PRE_SKIP,
        input_sample_rate: rate,
        output_gain: 0,
        channel_mapping_family: 0,
        mapping_table: Seq::empty(),
    }
}

/// The converter of a stream.
pub open spec fn opus_setup(
    rate: u32,
    channels: u16,
    format: SampleFormat,
    samples: u32,
) -> SetupView {
    SetupView {
        source: if format is S16 {
            s16_format(rate, channels as u32)
        } else {
            float32_format(rate, channels as u32)
        },
        destination: compressed_format(
            rate,
            K_AUDIO_FORMAT_OPUS,
            0,
            0,
            samples,
            channels as u32,
        ),
        cookie: Seq::empty(),
        create_op: "AudioConverterNew (Opus enc)"@,
        cookie_op: ""@,
    }
}

/// The rules of an Opus session: the converter looks ahead, so a packet's worth of PCM
/// is kept back, and the last packet is filled up with zeros.
pub open spec fn is_opus_rules(rules: EncodeRules, channels: u16, samples: u32) -> bool {
    &&& rules.channels == channels
    &&& rules.frame_length == samples
    &&& rules.slack
    &&& !rules.isolate
    &&& rules.pad_tail
    &&& rules.demand is AtLeastOne
    &&& rules.counted
    &&& rules.least_packet_bytes == 1_500
    &&& rules.op@ == "AudioConverterFillComplexBuffer (Opus enc)"@
    &&& rules.refusal@ == "OpusAtEncoder only accepts Audio frames"@
}

/// Whether a sample rate is one that Opus takes.
fn validate_input_rate(rate: u32) -> (r: Result<(), Error>)
    ensures
        is_opus_rate(rate) ==> r is Ok,
        !is_opus_rate(rate) ==> fails_with(
            r,
            ErrorView::Unsupported(
                "Opus encoder: input rate "@ + decimal(rate as nat)
                    + " Hz is not one of 8000 / 12000 / 16000 / 24000 / 48000 (RFC 6716 §2.1.1)"@,
            ),
        ),
{
    match rate {
        8_000 | 12_000 | 16_000 | 24_000 | 48_000 => Ok(()),
        _ => Err(
            Error::Unsupported(
                numbered(
                    "Opus encoder: input rate ",
                    rate as u64,
                    " Hz is not one of 8000 / 12000 / 16000 / 24000 / 48000 (RFC 6716 §2.1.1)",
                ),
            ),
        ),
    }
}

/// The duration of a packet that an option names, in tenths of a millisecond.
pub fn parse_frame_duration(option: Option<&str>) -> (r: Result<u32, Error>)
    ensures
        ({
            let o: Option<Seq<char>> = match option {
                Some(s) => Some(s@),
                None => None,
            };
            match r {
                Ok(tenths) => is_duration(tenths) && names_duration(o, tenths),
                Err(e) => {
                    &&& o is Some
                    &&& names_none(o)
                    &&& e@ == duration_refusal(o->0)
                },
            }
        }),
{
    let s = match option {
        None => return Ok(200),
        Some(s) => s,
    };
    let reading = read_tenths(s, 600);
    if let Reading::Tenths(t) = reading {
        if t == 25 || t == 50 || t == 100 || t == 200 || t == 400 || t == 600 {
            return Ok(t);
        }
        proof {
            assert forall|u: u32| !#[trigger] names_duration(Some(s@), u) by {
                if numeral_of(s@)->0.is_tenths(u as nat) && is_duration(u) {
                    tenths_are_unique(numeral_of(s@)->0, t as nat, u as nat);
                }
            }
        }
    } else {
        proof {
            assert forall|u: u32| !#[trigger] names_duration(Some(s@), u) by {
                if numeral_of(s@) is Some && is_duration(u) {
                    assert(!numeral_of(s@)->0.is_tenths(u as nat));
                }
            }
        }
    }
    let tail = if reading == Reading::NotANumber && !names_special(s) {
        if s.unicode_len() == 0 {
            " is not a number (cannot parse float from empty string)"
        } else {
            " is not a number (invalid float literal)"
        }
    } else {
        " is not one of 2.5 / 5 / 10 / 20 / 40 / 60"
    };
    let literal = quoted(s);
    Err(
        Error::InvalidData(join3("Opus encoder: frame_duration_ms = ", literal.as_str(), tail)),
    )
}

/// The numeral of a duration.
pub fn duration_name(tenths: u32) -> (s: &'static str)
    requires
        is_duration(tenths),
    ensures
        s@ == duration_label(tenths),
{
    proof {
        reveal_strlit("5");
        reveal_strlit("10");
        reveal_strlit("20");
        reveal_strlit("40");
        reveal_strlit("60");
        reveal_with_fuel(decimal, 2);
        assert("5"@ =~= decimal(5));
        assert("10"@ =~= decimal(10));
        assert("20"@ =~= decimal(20));
        assert("40"@ =~= decimal(40));
        assert("60"@ =~= decimal(60));
    }
    if tenths == 25 {
        "2.5"
    } else if tenths == 50 {
        "5"
    } else if tenths == 100 {
        "10"
    } else if tenths == 200 {
        "20"
    } else if tenths == 400 {
        "40"
    } else {
        "60"
    }
}

impl OpusAtEncoder {
    /// What an encoder holds once it is made with packets of the given duration.
    pub open spec fn is_made(self, params: CodecParameters, tenths: u32) -> bool {
        let rate = rate_of(params);
        let channels = channels_of(params);
        let format = requested_format(params);
        let samples = packet_samples(rate, tenths);
        &&& self.codec_id@ == params.codec_id@
        &&& self.sample_rate == rate
        &&& self.bit_rate == requested_bit_rate(params)
        &&& self.setup@ == opus_setup(rate, channels, format, samples)
        &&& self.session.is_sound()
        &&& is_opus_rules(self.session.rules, channels, samples)
        &&& self.session@ == EncodeState::fresh(
            self.session.rules,
            (format.width() * channels) as u32,
            rate,
            1_500,
        )
        &&& self.out_params@ == ParamsView {
            codec_id: params.codec_id@,
            sample_rate: Some(rate),
            channels: Some(channels),
            sample_format: Some(format),
            extradata: head_packet_bytes(stream_head(rate, channels)),
            bit_rate: Some(requested_bit_rate(params) as u64),
            options: empty_options().insert("frame_duration_ms"@, duration_label(tenths)),
        }
    }

    /// What comes of making an encoder.
    pub open spec fn is_outcome(r: Result<OpusAtEncoder, Error>, params: CodecParameters) -> bool {
        match params_refusal(params) {
            Some(e) => fails_with(r, e),
            None => match r {
                Ok(encoder) => exists|tenths: u32|
                    {
                        &&& is_duration(tenths)
                        &&& #[trigger] names_duration(duration_option(params), tenths)
                        &&& encoder.is_made(params, tenths)
                    },
                Err(e) => {
                    &&& duration_option(params) is Some
                    &&& names_none(duration_option(params))
                    &&& e@ == duration_refusal(duration_option(params)->0)
                },
            },
        }
    }

    /// Make an encoder. Until the framework says more, its bit rate is the one that is
    /// asked for.
    pub fn new(params: &CodecParameters) -> (r: Result<OpusAtEncoder, Error>)
        ensures
            OpusAtEncoder::is_outcome(r, *params),
    {
        let rate: u32 = params.requested_rate();
        let channels: u16 = params.requested_channels();
        let format = params.requested_format(SampleFormat::S16);
        match validate_input_rate(rate) {
            Ok(_) => {},
            Err(e) => return Err(e),
        }
        if channels < 1 || channels > 2 {
            return Err(
                Error::Unsupported(
                    numbered(
                        "Opus encoder (mapping family 0): channel count ",
                        channels as u64,
                        " out of range (1..=2)",
                    ),
                ),
            );
        }
        let source = match format {
            SampleFormat::S16 => AudioStreamBasicDescription::pcm_s16(rate, channels as u32),
            SampleFormat::F32 => AudioStreamBasicDescription::pcm_float32(rate, channels as u32),
            other => {
                return Err(
                    Error::Unsupported(
                        join3(
                            "Opus encoder: only S16 / F32 input supported (got ",
                            other.name(),
                            ")",
                        ),
                    ),
                );
            },
        };
        let option = get_option(&params.options, "frame_duration_ms");
        let ghost o: Option<Seq<char>> = match option {
            Some(s) => Some(s@),
            None => None,
        };
        assert(o == duration_option(*params));
        let tenths: u32 = match parse_frame_duration(option) {
            Ok(t) => t,
            Err(e) => return Err(e),
        };
        let samples: u32 = rate * tenths / 10_000;
        let setup = ConverterSetup {
            source,
            destination: AudioStreamBasicDescription::opus(rate, channels as u32, samples),
            cookie: Vec::new(),
            create_op: "AudioConverterNew (Opus enc)".to_owned(),
            cookie_op: "",
        };
        assert(setup@ =~= opus_setup(rate, channels, format, samples));
        let rules = EncodeRules {
            channels: channels as u32,
            frame_length: samples,
            slack: true,
            isolate: false,
            pad_tail: true,
            demand: Demand::AtLeastOne,
            counted: true,
            least_packet_bytes: 1_500,
            op: "AudioConverterFillComplexBuffer (Opus enc)",
            refusal: "OpusAtEncoder only accepts Audio frames",
        };
        let size: u32 = format.bytes_per_sample() as u32 * channels as u32;
        let bit_rate: u32 = match params.bit_rate {
            Some(n) => (n % 0x1_0000_0000) as u32,
            None => DEFAULT_BIT_RATE,
        };
        let head = OpusHead {
            version: 1,
            channel_count: channels as u8,
            pre_skip: DEFAULT_PRE_SKIP,
            input_sample_rate: rate,
            output_gain: 0,
            channel_mapping_family: 0,
            mapping_table: Vec::new(),
        };
        assert(head@ =~= stream_head(rate, channels));
        let mut out_params = CodecParameters::audio(params.codec_id.as_str());
        out_params.sample_rate = Some(rate);
        out_params.channels = Some(channels);
        out_params.sample_format = Some(format);
        out_params.bit_rate = Some(bit_rate as u64);
        out_params.extradata = head.to_packet_bytes();
        set_option(&mut out_params.options, "frame_duration_ms", duration_name(tenths));
        assert(samples * size * 2 <= u32::MAX) by (nonlinear_arith)
            requires
                samples <= 2880,
                size <= 8,
        ;
        let encoder = OpusAtEncoder {
            codec_id: params.codec_id.clone(),
            sample_rate: rate,
            bit_rate,
            setup,
            session: EncodeSession::new(rules, size, rate, 1_500),
            out_params,
        };
        assert(encoder.is_made(*params, tenths));
        assert(names_duration(duration_option(*params), tenths));
        Ok(encoder)
    }

    /// Publish the bit rate that the converter settled on, if it told it.
    pub fn bit_rate_answered(&mut self, bit_rate: Option<u32>)
        ensures
            final(self).codec_id == old(self).codec_id,
            final(self).sample_rate == old(self).sample_rate,
            final(self).bit_rate == old(self).bit_rate,
            final(self).setup == old(self).setup,
            final(self).session == old(self).session,
            final(self).out_params@ == (ParamsView {
                bit_rate: Some(given_or(bit_rate, old(self).bit_rate) as u64),
                ..old(self).out_params@
            }),
    {
        let actual: u32 = match bit_rate {
            Some(n) => n,
            None => self.bit_rate,
        };
        self.out_params.bit_rate = Some(actual as u64);
    }

    /// Publish the converter's cookie in place of the encoder's own header, if it gave
    /// one that is an identification header.
    pub fn cookie_answered(&mut self, cookie: Result<Vec<u8>, Error>)
        ensures
            final(self).codec_id == old(self).codec_id,
            final(self).sample_rate == old(self).sample_rate,
            final(self).bit_rate == old(self).bit_rate,
            final(self).setup == old(self).setup,
            final(self).session == old(self).session,
            final(self).out_params@ == (ParamsView {
                extradata: match cookie {
                    Ok(bytes) if has_magic(bytes@) && head_of(bytes@) is Some => bytes@,
                    _ => old(self).out_params@.extradata,
                },
                ..old(self).out_params@
            }),
    {
        if let Ok(bytes) = cookie {
            if starts_with_magic(bytes.as_slice()) && OpusHead::parse(
                bytes.as_slice(),
            ).is_some() {
                self.out_params.extradata = bytes;
            }
        }
    }

    /// Sample rate in hertz.
    pub fn sample_rate(&self) -> (rate: u32)
        ensures
            rate == self.sample_rate,
    {
        self.sample_rate
    }

    /// Samples in a packet.
    pub fn frames_per_packet(&self) -> (n: u32)
        ensures
            n == self.session.rules.frame_length,
    {
        self.session.rules.frame_length
    }

    /// What the coded stream is.
    pub fn output_params(&self) -> (p: &CodecParameters)
        ensures
            *p == self.out_params,
    {
        &self.out_params
    }
}

/// Make an encoder.
pub fn make_encoder(params: &CodecParameters) -> (r: Result<OpusAtEncoder, Error>)
    ensures
        OpusAtEncoder::is_outcome(r, *params),
{
    OpusAtEncoder::new(params)
}

/// The header that an encoder publishes describes its stream.
pub proof fn heads_describe_the_stream(e: OpusAtEncoder, params: CodecParameters, tenths: u32)
    requires
        e.is_made(params, tenths),
        params_refusal(params) is None,
    ensures
        head_of(e.out_params@.extradata) == Some(
            stream_head(rate_of(params), channels_of(params)),
        ),
{
    head_packet_round_trips(stream_head(rate_of(params), channels_of(params)));
}

/// Every duration fills a whole number of samples at every sample rate.
pub proof fn durations_are_exact(rate: u32, tenths: u32)
    requires
        is_opus_rate(rate),
        is_duration(tenths),
    ensures
        rate * tenths % 10_000 == 0,
        20 <= packet_samples(rate, tenths) <= 2_880,
        packet_samples(rate, tenths) * 10_000 == rate * tenths,
{
    assert(8_000 * tenths % 10_000 == 0 && 12_000 * tenths % 10_000 == 0 && 16_000 * tenths
        % 10_000 == 0 && 24_000 * tenths % 10_000 == 0 && 48_000 * tenths % 10_000 == 0);
}

/// A packet lasts 2.5, 5, 10, 20, 40 or 60 ms; without an option 20. An option that is
/// the numeral of one of them names it, and one that names another number names none.
pub proof fn packets_have_six_durations(tenths: u32, s: Seq<char>)
    ensures
        is_duration(tenths) <==> tenths * 2 == 5 * 10 || tenths == 5 * 10 || tenths == 10 * 10
            || tenths == 20 * 10 || tenths == 40 * 10 || tenths == 60 * 10,
        names_duration(None, tenths) <==> tenths == 20 * 10,
        names_duration(Some(s), tenths) ==> is_duration(tenths),
        numeral_of(s) is None ==> names_none(Some(s)),
        numeral_of(s) matches Some(n) ==> is_duration(tenths) ==> (names_duration(Some(s), tenths)
            <==> n.is_tenths(tenths as nat)),
        !names_none(None),
{
    assert(names_duration(None, 200));
    if numeral_of(s) is None {
        assert(forall|t: u32| !#[trigger] names_duration(Some(s), t));
    }
}

/// The label of a duration is its numeral in milliseconds, without a sign, an exponent or
/// zeros that say nothing: it names the duration that it labels, and no other.
pub proof fn labels_name_their_duration(tenths: u32, other: u32)
    requires
        is_duration(tenths),
    ensures
        names_duration(Some(duration_label(tenths)), tenths),
        names_duration(Some(duration_label(tenths)), other) ==> other == tenths,
        tenths == 25 ==> duration_label(tenths) == seq!['2', '.', '5'],
        tenths == 50 ==> duration_label(tenths) == seq!['5'],
        tenths == 100 ==> duration_label(tenths) == seq!['1', '0'],
        tenths == 200 ==> duration_label(tenths) == seq!['2', '0'],
        tenths == 400 ==> duration_label(tenths) == seq!['4', '0'],
        tenths == 600 ==> duration_label(tenths) == seq!['6', '0'],
{
    reveal_with_fuel(decimal, 2);
    assert(tenths == 50 ==> duration_label(tenths) =~= seq!['5']);
    assert(tenths == 100 ==> duration_label(tenths) =~= seq!['1', '0']);
    assert(tenths == 200 ==> duration_label(tenths) =~= seq!['2', '0']);
    assert(tenths == 400 ==> duration_label(tenths) =~= seq!['4', '0']);
    assert(tenths == 600 ==> duration_label(tenths) =~= seq!['6', '0']);
    let s = duration_label(tenths);
    if tenths == 25 {
        reveal_strlit("2.5");
        assert(s =~= seq!['2', '.', '5']);
        let whole = seq!['2'];
        let part = seq!['5'];
        assert(s =~= Seq::<char>::empty() + whole + seq!['.'] + part);
        crate::numeral::digits_and_a_point_are_a_numeral(Seq::empty(), whole, part);
        let n = numeral_of(s)->0;
        let d = crate::numeral::values(whole + part);
        assert(d =~= seq![2u8, 5]);
        crate::numeral::digits_make_numbers(Seq::empty(), 2, s, 0);
        crate::numeral::digits_make_numbers(seq![2u8], 5, s, 0);
        assert(Seq::<u8>::empty().push(2) =~= seq![2u8]);
        assert(seq![2u8].push(5) =~= d);
        crate::numeral::tenths_go_by_value(n, 25);
    } else {
        let ms = tenths as nat / 10;
        assert(ms * 10 == tenths);
        crate::text::decimals_read_back(ms);
        let whole = decimal(ms);
        assert(s =~= Seq::<char>::empty() + whole);
        crate::numeral::digits_and_a_point_are_a_numeral(Seq::empty(), whole, Seq::empty());
        let n = numeral_of(s)->0;
        let m = crate::numeral::Numeral { digits: n.digits.push(0), scale: n.scale - 1, ..n };
        crate::numeral::digits_make_numbers(n.digits, 0, s, 0);
        crate::numeral::tenths_go_by_value(n, tenths as nat);
        crate::numeral::tenths_go_by_value(m, tenths as nat);
    }
    if names_duration(Some(s), other) {
        tenths_are_unique(numeral_of(s)->0, tenths as nat, other as nat);
    }
}

/// Why an option is refused: the empty text and texts that are neither numerals nor
/// names of special numbers are no numbers; any other names no duration. The text stands
/// in the message as a literal.
pub proof fn refused_durations_say_why(s: Seq<char>)
    ensures
        ({
            let e = duration_refusal(s);
            let lead = "Opus encoder: frame_duration_ms = "@ + quoted_text(s);
            let number = numeral_of(s) is Some || is_special(s);
            &&& number ==> e == ErrorView::InvalidData(
                lead + " is not one of 2.5 / 5 / 10 / 20 / 40 / 60"@,
            )
            &&& !number && s.len() > 0 ==> e == ErrorView::InvalidData(
                lead + " is not a number (invalid float literal)"@,
            )
            &&& s.len() == 0 ==> e == ErrorView::InvalidData(
                lead + " is not a number (cannot parse float from empty string)"@,
            )
        }),
{
    reveal_strlit("inf");
    reveal_strlit("infinity");
    reveal_strlit("nan");
    if s.len() == 0 && numeral_of(s) is Some {
        crate::numeral::numerals_have_only_their_characters(s);
    }
}

/// A stream is taken exactly if its rate is one of the five of Opus, it is mono or
/// stereo, and its samples are of 16 bits or floats. A wrong rate is told before a wrong
/// channel count, and that before a wrong format.
pub proof fn only_some_streams_are_taken(params: CodecParameters)
    ensures
        ({
            let r = params_refusal(params);
            let rate = match params.sample_rate {
                Some(n) => n,
                None => 48_000,
            };
            let channels = match params.channels {
                Some(n) => n,
                None => 2,
            };
            let rate_fits = rate == 8_000 || rate == 12_000 || rate == 16_000 || rate == 24_000
                || rate == 48_000;
            let channels_fit = channels == 1 || channels == 2;
            let format_fits = params.sample_format is None || params.sample_format->0 is S16
                || params.sample_format->0 is F32;
            &&& r is None <==> rate_fits && channels_fit && format_fits
            &&& !rate_fits ==> r == Some(
                ErrorView::Unsupported(
                    "Opus encoder: input rate "@ + decimal(rate as nat)
                        + " Hz is not one of 8000 / 12000 / 16000 / 24000 / 48000 (RFC 6716 §2.1.1)"@,
                ),
            )
            &&& rate_fits && !channels_fit ==> r == Some(
                ErrorView::Unsupported(
                    "Opus encoder (mapping family 0): channel count "@ + decimal(channels as nat)
                        + " out of range (1..=2)"@,
                ),
            )
            &&& rate_fits && channels_fit && !format_fits ==> r == Some(
                ErrorView::Unsupported(
                    "Opus encoder: only S16 / F32 input supported (got "@
                        + params.sample_format->0.label() + ")"@,
                ),
            )
        }),
{
}

/// The bit rate that is asked for is the given one as far as 32 bits hold it, or 96
/// kbit/s.
pub proof fn bit_rates_are_taken(params: CodecParameters)
    ensures
        params.bit_rate is None ==> requested_bit_rate(params) == 96_000,
        params.bit_rate matches Some(n) ==> {
            &&& n <= u32::MAX ==> requested_bit_rate(params) == n
            &&& (n - requested_bit_rate(params)) % 0x1_0000_0000 == 0
        },
{
}

/// What an encoder is made with: PCM of the format that is asked for in, Opus in packets
/// of the named duration out. A packet's worth of PCM is held back while the stream goes
/// on, and zeros fill up the last packet.
pub proof fn encoders_are_made_for_their_stream(
    e: OpusAtEncoder,
    params: CodecParameters,
    tenths: u32,
)
    requires
        e.is_made(params, tenths),
        params_refusal(params) is None,
        is_duration(tenths),
    ensures
        ({
            let rate = rate_of(params);
            let channels = channels_of(params) as u32;
            let float = params.sample_format == Some(SampleFormat::F32);
            &&& e.codec_id@ == params.codec_id@
            &&& e.sample_rate == rate
            &&& e.bit_rate == requested_bit_rate(params)
            &&& float ==> e.session.staging.bytes_per_frame == 4 * channels && e.setup.source
                == float32_format(rate, channels)
            &&& !float ==> e.session.staging.bytes_per_frame == 2 * channels && e.setup.source
                == s16_format(rate, channels)
            &&& e.setup.destination == compressed_format(
                rate,
                K_AUDIO_FORMAT_OPUS,
                0,
                0,
                e.session.rules.frame_length,
                channels,
            )
            &&& e.session.rules.frame_length * 10_000 == rate * tenths
            &&& e.session.rules.channels == channels
        }),
        e.setup.cookie@.len() == 0,
        e.setup.create_op@ == "AudioConverterNew (Opus enc)"@,
        e.setup.cookie_op@ == ""@,
        e.session.max_packet_bytes == 1_500,
        e.session.rules.slack,
        !e.session.rules.isolate,
        e.session.rules.pad_tail,
        e.session.rules.demand is AtLeastOne,
        e.session.rules.counted,
        e.session.rules.least_packet_bytes == 1_500,
        e.session.rules.op@ == "AudioConverterFillComplexBuffer (Opus enc)"@,
        e.session.rules.refusal@ == "OpusAtEncoder only accepts Audio frames"@,
        e.session.staging.live().len() == 0,
        e.session.offered.live().len() == 0,
        e.session.fill is None,
        e.session.phase is Idle,
        e.session.sink.pending@.len() == 0,
        e.session.sink.pts == 0,
        !e.session.sink.eof,
        e.session.sink.time_base.num == 1,
        e.session.sink.time_base.den == rate_of(params),
        e.session.is_sound(),
{
    crate::encode::states_show_their_sessions(e.session);
    crate::feed::states_show_their_sinks(e.session.sink, 0);
    durations_are_exact(rate_of(params), tenths);
    let view = e.setup@;
    assert(view.cookie.len() == 0);
}

/// What an encoder publishes of its stream: its rate, channels, format and bit rate, the
/// duration of its packets as its only option, and a header from which rate, channels and
/// the 80 ms to drop can be read.
pub proof fn encoders_publish_their_stream(
    e: OpusAtEncoder,
    params: CodecParameters,
    tenths: u32,
    key: Seq<char>,
)
    requires
        e.is_made(params, tenths),
        params_refusal(params) is None,
        is_duration(tenths),
    ensures
        ({
            let p = e.out_params;
            let float = params.sample_format == Some(SampleFormat::F32);
            let head = crate::opus::head_of(p.extradata@);
            &&& p.codec_id@ == params.codec_id@
            &&& p.sample_rate == Some(rate_of(params))
            &&& p.channels == Some(channels_of(params))
            &&& float ==> p.sample_format == Some(SampleFormat::F32)
            &&& !float ==> p.sample_format == Some(SampleFormat::S16)
            &&& p.bit_rate == Some(requested_bit_rate(params) as u64)
            &&& option_value(p.options, "frame_duration_ms"@) == Some(duration_label(tenths))
            &&& key != "frame_duration_ms"@ ==> option_value(p.options, key) is None
            &&& crate::opus::has_magic(p.extradata@)
            &&& p.extradata@.len() == 19
            &&& head is Some
            &&& head->0.version == 1
            &&& head->0.channel_count == channels_of(params)
            &&& head->0.pre_skip == 3_840
            &&& head->0.input_sample_rate == rate_of(params)
            &&& head->0.output_gain == 0
            &&& head->0.channel_mapping_family == 0
        }),
{
    let view = e.out_params@;
    assert(view.options.contains_key("frame_duration_ms"@));
    let h = stream_head(rate_of(params), channels_of(params));
    crate::opus::head_packet_round_trips(h);
    crate::opus::heads_are_written_in_order(h);
}

/// What comes of making an encoder: the refusal of its stream, the refusal of its
/// duration, or an encoder for a duration that the option names. An option that is
/// missing refuses nothing.
pub proof fn encoders_are_made_or_refused(r: Result<OpusAtEncoder, Error>, params: CodecParameters)
    requires
        OpusAtEncoder::is_outcome(r, params),
    ensures
        params_refusal(params) matches Some(e) ==> r is Err && r->Err_0@ == e,
        params_refusal(params) is None ==> (r is Err <==> names_none(duration_option(params))),
        params_refusal(params) is None && r is Err ==> r->Err_0@ == duration_refusal(
            duration_option(params)->0,
        ),
        r matches Ok(encoder) ==> exists|tenths: u32|
            {
                &&& is_duration(tenths)
                &&& #[trigger] names_duration(duration_option(params), tenths)
                &&& encoder.is_made(params, tenths)
            },
        duration_option(params) == option_value(params.options, "frame_duration_ms"@),
{
}

} // verus!
