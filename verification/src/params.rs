//! Stream parameters, as a codec is opened with them and as an encoder publishes
//! them.

use oxideav_core::CodecOptions;
use vstd::prelude::*;

use crate::error::Error;

verus! {

/// The option bag of `oxideav_core`.
#[verifier::external_type_specification]
#[verifier::external_body]
pub struct ExCodecOptions(CodecOptions);

/// The options that a bag holds: the value of each key that was set.
pub uninterp spec fn options_view(options: CodecOptions) -> Map<Seq<char>, Seq<char>>;

/// No options.
pub open spec fn empty_options() -> Map<Seq<char>, Seq<char>> {
    Map::empty()
}

/// `CodecOptions::new` makes a bag without options.
#[verifier::external_body]
pub(crate) fn no_options() -> (options: CodecOptions)
    ensures
        options_view(options) == empty_options(),
{
    CodecOptions::new()
}

/// `CodecOptions::get` looks a key up: the value that the bag holds for it, or
/// `None` where it was never set.
#[verifier::external_body]
pub(crate) fn get_option<'a>(options: &'a CodecOptions, key: &str) -> (value: Option<&'a str>)
    ensures
        value is Some <==> options_view(*options).dom().contains(key@),
        value matches Some(v) ==> v@ == options_view(*options)[key@],
{
    options.get(key)
}

/// `CodecOptions::insert` sets the value of a key, in place of any value that it had,
/// and leaves the other keys alone.
#[verifier::external_body]
pub(crate) fn set_option(options: &mut CodecOptions, key: &str, value: &str)
    ensures
        options_view(*final(options)) == options_view(*old(options)).insert(key@, value@),
{
    options.insert(key, value)
}

/// The value of an option, where it is set.
pub open spec fn option_value(options: CodecOptions, key: Seq<char>) -> Option<Seq<char>> {
    if options_view(options).dom().contains(key) {
        Some(options_view(options)[key])
    } else {
        None
    }
}

/// How a PCM sample is stored.
#[derive(Clone, Copy, Debug, PartialEq, Eq, Structural)]
pub enum SampleFormat {
    /// Unsigned 8-bit, interleaved.
    U8,
    /// Signed 8-bit, interleaved.
    S8,
    /// Signed 16-bit little-endian, interleaved.
    S16,
    /// Signed 24-bit packed little-endian, interleaved.
    S24,
    /// Signed 32-bit little-endian, interleaved.
    S32,
    /// 32-bit float, interleaved.
    F32,
    /// 64-bit float, interleaved.
    F64,
    /// Unsigned 8-bit, planar.
    U8P,
    /// Signed 16-bit little-endian, planar.
    S16P,
    /// Signed 32-bit little-endian, planar.
    S32P,
    /// 32-bit float, planar.
    F32P,
    /// 64-bit float, planar.
    F64P,
}

impl SampleFormat {
    /// Bytes per sample of one channel.
    pub open spec fn width(self) -> usize {
        match self {
            SampleFormat::U8 | SampleFormat::U8P | SampleFormat::S8 => 1,
            SampleFormat::S16 | SampleFormat::S16P => 2,
            SampleFormat::S24 => 3,
            SampleFormat::S32 | SampleFormat::S32P | SampleFormat::F32 | SampleFormat::F32P => 4,
            SampleFormat::F64 | SampleFormat::F64P => 8,
        }
    }

    /// The name of the variant.
    pub open spec fn label(self) -> Seq<char> {
        match self {
            SampleFormat::U8 => "U8"@,
            SampleFormat::S8 => "S8"@,
            SampleFormat::S16 => "S16"@,
            SampleFormat::S24 => "S24"@,
            SampleFormat::S32 => "S32"@,
            SampleFormat::F32 => "F32"@,
            SampleFormat::F64 => "F64"@,
            SampleFormat::U8P => "U8P"@,
            SampleFormat::S16P => "S16P"@,
            SampleFormat::S32P => "S32P"@,
            SampleFormat::F32P => "F32P"@,
            SampleFormat::F64P => "F64P"@,
        }
    }

    /// Bytes per sample of one channel.
    pub fn bytes_per_sample(self) -> (n: usize)
        ensures
            n == self.width(),
            1 <= n <= 8,
    {
        match self {
            SampleFormat::U8 | SampleFormat::U8P | SampleFormat::S8 => 1,
            SampleFormat::S16 | SampleFormat::S16P => 2,
            SampleFormat::S24 => 3,
            SampleFormat::S32 | SampleFormat::S32P | SampleFormat::F32 | SampleFormat::F32P => 4,
            SampleFormat::F64 | SampleFormat::F64P => 8,
        }
    }

    /// The name of the variant.
    pub fn name(self) -> (s: &'static str)
        ensures
            s@ == self.label(),
    {
        match self {
            SampleFormat::U8 => "U8",
            SampleFormat::S8 => "S8",
            SampleFormat::S16 => "S16",
            SampleFormat::S24 => "S24",
            SampleFormat::S32 => "S32",
            SampleFormat::F32 => "F32",
            SampleFormat::F64 => "F64",
            SampleFormat::U8P => "U8P",
            SampleFormat::S16P => "S16P",
            SampleFormat::S32P => "S32P",
            SampleFormat::F32P => "F32P",
            SampleFormat::F64P => "F64P",
        }
    }
}

/// The time base of a stream: `num / den` seconds a tick.
#[derive(Clone, Copy, Debug, PartialEq, Eq, Structural)]
pub struct TimeBase {
    /// Numerator.
    pub num: i64,
    /// Denominator.
    pub den: i64,
}

/// The time base of one tick a sample.
pub open spec fn sample_time_base(sample_rate: u32) -> TimeBase {
    TimeBase { num: 1, den: sample_rate as i64 }
}

impl TimeBase {
    /// The time base of one tick a sample.
    pub fn per_sample(sample_rate: u32) -> (tb: TimeBase)
        ensures
            tb == sample_time_base(sample_rate),
    {
        TimeBase { num: 1, den: sample_rate as i64 }
    }
}

/// The parameters of an audio stream.
#[derive(Debug)]
pub struct CodecParameters {
    /// Identifier of the codec.
    pub codec_id: String,
    /// Sample rate in hertz.
    pub sample_rate: Option<u32>,
    /// Channels.
    pub channels: Option<u16>,
    /// How the PCM samples are stored.
    pub sample_format: Option<SampleFormat>,
    /// Set-up bytes of the codec.
    pub extradata: Vec<u8>,
    /// Bits per second.
    pub bit_rate: Option<u64>,
    /// Codec-specific options.
    pub options: CodecOptions,
}

/// [`CodecParameters`] as mathematics.
#[verifier::ext_equal]
pub struct ParamsView {
    pub codec_id: Seq<char>,
    pub sample_rate: Option<u32>,
    pub channels: Option<u16>,
    pub sample_format: Option<SampleFormat>,
    pub extradata: Seq<u8>,
    pub bit_rate: Option<u64>,
    pub options: Map<Seq<char>, Seq<char>>,
}

impl View for CodecParameters {
    type V = ParamsView;

    open spec fn view(&self) -> ParamsView {
        ParamsView {
            codec_id: self.codec_id@,
            sample_rate: self.sample_rate,
            channels: self.channels,
            sample_format: self.sample_format,
            extradata: self.extradata@,
            bit_rate: self.bit_rate,
            options: options_view(self.options),
        }
    }
}

/// The value that was given, or else the default.
pub open spec fn given_or<T>(given: Option<T>, default: T) -> T {
    match given {
        Some(v) => v,
        None => default,
    }
}

impl CodecParameters {
    /// Parameters that name a codec and nothing else.
    pub fn audio(codec_id: &str) -> (p: CodecParameters)
        ensures
            p@ == (ParamsView {
                codec_id: codec_id@,
                sample_rate: None,
                channels: None,
                sample_format: None,
                extradata: Seq::empty(),
                bit_rate: None,
                options: empty_options(),
            }),
    {
        CodecParameters {
            codec_id: codec_id.to_owned(),
            sample_rate: None,
            channels: None,
            sample_format: None,
            extradata: Vec::new(),
            bit_rate: None,
            options: no_options(),
        }
    }
    /// The sample rate that an encoder is asked for, 48 kHz unless given.
    pub fn requested_rate(&self) -> (rate: u32)
        ensures
            rate == rate_of(*self),
    {
        match self.sample_rate {
            Some(n) => n,
            None => 48_000,
        }
    }

    /// The channel count that an encoder is asked for, 2 unless given.
    pub fn requested_channels(&self) -> (n: u16)
        ensures
            n == channels_of(*self),
    {
        match self.channels {
            Some(n) => n,
            None => 2,
        }
    }

    /// The sample format that an encoder is asked for.
    pub fn requested_format(&self, default: SampleFormat) -> (f: SampleFormat)
        ensures
            f == given_or(self.sample_format, default),
    {
        match self.sample_format {
            Some(f) => f,
            None => default,
        }
    }

    /// Publish a cookie, if there is one.
    pub fn publish_cookie(&mut self, cookie: Result<Vec<u8>, Error>)
        ensures
            final(self)@ == (ParamsView {
                extradata: match cookie {
                    Ok(bytes) => bytes@,
                    Err(_) => old(self)@.extradata,
                },
                ..old(self)@
            }),
    {
        if let Ok(bytes) = cookie {
            self.extradata = bytes;
        }
    }
}

/// The sample rate that an encoder is asked for, 48 kHz unless given.
pub open spec fn rate_of(params: CodecParameters) -> u32 {
    given_or(params.sample_rate, 48_000)
}

/// The channel count that an encoder is asked for, 2 unless given.
pub open spec fn channels_of(params: CodecParameters) -> u16 {
    given_or(params.channels, 2)
}

/// How many bytes a sample takes is the number of its bits over eight: 8, 16, 24, 32 and
/// 64 bits. Storing samples in planes changes nothing of that.
pub proof fn samples_are_as_wide_as_their_bits(f: SampleFormat)
    ensures
        f is U8 || f is S8 || f is U8P ==> f.width() * 8 == 8,
        f is S16 || f is S16P ==> f.width() * 8 == 16,
        f is S24 ==> f.width() * 8 == 24,
        f is S32 || f is S32P || f is F32 || f is F32P ==> f.width() * 8 == 32,
        f is F64 || f is F64P ==> f.width() * 8 == 64,
{
}

/// Each sample format is called by its own name.
pub proof fn formats_have_their_names(f: SampleFormat)
    ensures
        f is U8 ==> f.label() == "U8"@,
        f is S8 ==> f.label() == "S8"@,
        f is S16 ==> f.label() == "S16"@,
        f is S24 ==> f.label() == "S24"@,
        f is S32 ==> f.label() == "S32"@,
        f is F32 ==> f.label() == "F32"@,
        f is F64 ==> f.label() == "F64"@,
        f is U8P ==> f.label() == "U8P"@,
        f is S16P ==> f.label() == "S16P"@,
        f is S32P ==> f.label() == "S32P"@,
        f is F32P ==> f.label() == "F32P"@,
        f is F64P ==> f.label() == "F64P"@,
{
}

/// As many ticks as the sample rate make one second.
pub proof fn ticks_are_samples(sample_rate: u32)
    ensures
        sample_time_base(sample_rate).num == 1,
        sample_time_base(sample_rate).den == sample_rate,
{
}

/// What is given is taken. An encoder that is given no rate takes 48 kHz, and one that is
/// given no channels two.
pub proof fn given_parameters_are_taken(params: CodecParameters)
    ensures
        params.sample_rate is Some ==> rate_of(params) == params.sample_rate->0,
        params.sample_rate is None ==> rate_of(params) == 48_000,
        params.channels is Some ==> channels_of(params) == params.channels->0,
        params.channels is None ==> channels_of(params) == 2,
{
}

/// A value that is given stands, and the default stands in only where none is given.
pub proof fn defaults_stand_in<T>(value: T, default: T)
    ensures
        given_or(Some(value), default) == value,
        given_or(None, default) == default,
{
}

/// An option has the value that the bag holds for it, and none where the bag has none;
/// the empty bag has none for any key. The parameters show every field.
pub proof fn options_are_looked_up(params: CodecParameters, key: Seq<char>, value: Seq<char>)
    ensures
        option_value(params.options, key) == Some(value) <==> params@.options.contains_pair(
            key,
            value,
        ),
        option_value(params.options, key) is None <==> !params@.options.contains_key(key),
        !empty_options().contains_key(key),
        params@.codec_id == params.codec_id@,
        params@.sample_rate == params.sample_rate,
        params@.channels == params.channels,
        params@.sample_format == params.sample_format,
        params@.extradata == params.extradata@,
        params@.bit_rate == params.bit_rate,
{
}

} // verus!
