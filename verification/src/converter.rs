//! The properties of an AudioConverter: what is asked of the framework for each, and
//! what its answers mean.

use vstd::prelude::*;
use vstd::slice::slice_to_vec;

use crate::bytes::ByteOrder;
use crate::error::{fails_with, Error};
use crate::status::{check, classify, status_error, status_failure, AtError, AtErrorView};
use crate::sys::{
    AudioValueRange, OSStatus, K_AUDIO_CONVERTER_APPLICABLE_ENCODE_BIT_RATES,
    K_AUDIO_CONVERTER_APPLICABLE_ENCODE_SAMPLE_RATES, K_AUDIO_CONVERTER_AVAILABLE_ENCODE_BIT_RATES,
    K_AUDIO_CONVERTER_AVAILABLE_ENCODE_SAMPLE_RATES, K_AUDIO_CONVERTER_COMPRESSION_MAGIC_COOKIE,
    K_AUDIO_CONVERTER_CURRENT_OUTPUT_SD, K_AUDIO_CONVERTER_DECOMPRESSION_MAGIC_COOKIE,
    K_AUDIO_CONVERTER_ENCODE_BIT_RATE, K_AUDIO_CONVERTER_MAX_OUTPUT_PACKET_SIZE,
    K_AUDIO_CONVERTER_PRIME_INFO, NO_ERR,
};
use crate::text::{decimal, join3, numbered};

verus! {

/// `r` is what the call `op` that returned `status` comes to: a value, or the classified
/// failure.
pub open spec fn answers<T>(
    r: Result<T, AtError>,
    op: Seq<char>,
    status: OSStatus,
    value: T,
) -> bool {
    match r {
        Ok(v) => status == NO_ERR && v == value,
        Err(e) => status != NO_ERR && e@ == (AtErrorView::Os { op, status: classify(status) }),
    }
}

/// The framework's answer to a question for bytes, which takes two calls: one for the
/// size and, unless it is 0, one for the bytes.
#[derive(Debug)]
pub struct PropertyReply {
    /// The status of the call for the size.
    pub info_status: OSStatus,
    /// The size.
    pub size: u32,
    /// The status of the call for the bytes.
    pub status: OSStatus,
    /// The buffer that was handed to that call.
    pub buffer: Vec<u8>,
    /// How many bytes it says that it wrote.
    pub written: u32,
}

impl PropertyReply {
    /// What was written of the buffer.
    pub open spec fn bytes(self) -> Seq<u8> {
        if self.written <= self.buffer@.len() {
            self.buffer@.subrange(0, self.written as int)
        } else {
            self.buffer@
        }
    }

    /// `r` is what the answer comes to.
    pub open spec fn means(
        self,
        r: Result<Vec<u8>, AtError>,
        info_op: Seq<char>,
        op: Seq<char>,
    ) -> bool {
        match r {
            Ok(bytes) => self.info_status == NO_ERR && if self.size == 0 {
                bytes@ == Seq::<u8>::empty()
            } else {
                self.status == NO_ERR && bytes@ == self.bytes()
            },
            Err(e) => if self.info_status != NO_ERR {
                e@ == (AtErrorView::Os { op: info_op, status: classify(self.info_status) })
            } else {
                self.size > 0 && self.status != NO_ERR && e@ == (AtErrorView::Os {
                    op,
                    status: classify(self.status),
                })
            },
        }
    }

    /// The bytes of the property.
    pub fn into_bytes(self, info_op: &'static str, op: &'static str) -> (r: Result<
        Vec<u8>,
        AtError,
    >)
        ensures
            self.means(r, info_op@, op@),
    {
        match check(info_op, self.info_status) {
            Ok(_) => {},
            Err(e) => return Err(e),
        }
        if self.size == 0 {
            return Ok(Vec::new());
        }
        match check(op, self.status) {
            Ok(_) => {},
            Err(e) => return Err(e),
        }
        let mut bytes = self.buffer;
        bytes.truncate(self.written as usize);
        Ok(bytes)
    }
}

/// A property to set.
#[derive(Debug)]
pub struct PropertyWrite {
    /// The property.
    pub property_id: u32,
    /// Its new value.
    pub data: Vec<u8>,
}

impl PropertyWrite {
    /// What the call comes to.
    pub fn answer(&self, status: OSStatus) -> (r: Result<(), AtError>)
        ensures
            answers(r, "AudioConverterSetProperty"@, status, ()),
    {
        check("AudioConverterSetProperty", status)
    }
}

/// A property of fixed size to read.
#[derive(Clone, Copy, Debug, PartialEq, Eq, Structural)]
pub struct PropertyRead {
    /// The property.
    pub property_id: u32,
    /// The size of its value in bytes.
    pub size: u32,
}

impl PropertyRead {
    /// What the call comes to that read `value`.
    pub fn answer<T>(&self, status: OSStatus, value: T) -> (r: Result<T, AtError>)
        ensures
            answers(r, "AudioConverterGetProperty"@, status, value),
    {
        match check("AudioConverterGetProperty", status) {
            Ok(_) => Ok(value),
            Err(e) => Err(e),
        }
    }
}

/// A property of any size to read.
#[derive(Clone, Copy, Debug, PartialEq, Eq, Structural)]
pub struct PropertyFetch {
    /// The property.
    pub property_id: u32,
}

impl PropertyFetch {
    /// What the two calls come to.
    pub fn answer(&self, reply: PropertyReply) -> (r: Result<Vec<u8>, AtError>)
        ensures
            reply.means(r, "AudioConverterGetPropertyInfo"@, "AudioConverterGetProperty"@),
    {
        reply.into_bytes("AudioConverterGetPropertyInfo", "AudioConverterGetProperty")
    }

    /// What the two calls come to, for a property that is a list of value ranges.
    pub fn answer_ranges(&self, reply: PropertyReply, order: ByteOrder) -> (r: Result<
        Vec<AudioValueRange>,
        AtError,
    >)
        ensures
            exists|bytes: Result<Vec<u8>, AtError>|
                {
                    &&& #[trigger] reply.means(
                        bytes,
                        "AudioConverterGetPropertyInfo"@,
                        "AudioConverterGetProperty"@,
                    )
                    &&& are_ranges(r, bytes, order)
                },
    {
        let bytes = self.answer(reply);
        let ghost b = bytes;
        let r = match bytes {
            Ok(bytes) => Ok(parse_value_ranges(bytes.as_slice(), order)),
            Err(e) => Err(e),
        };
        assert(are_ranges(r, b, order));
        r
    }
}

/// `r` is the list of ranges in `bytes`, or the same failure.
pub open spec fn are_ranges(
    r: Result<Vec<AudioValueRange>, AtError>,
    bytes: Result<Vec<u8>, AtError>,
    order: ByteOrder,
) -> bool {
    match bytes {
        Ok(b) => r is Ok && r->Ok_0@ == ranges_of(b@, order),
        Err(e) => r is Err && r->Err_0 == e,
    }
}

/// The ranges in a byte string: 16 bytes each, the lower bound first; fewer bytes at
/// the end are ignored.
pub open spec fn ranges_of(s: Seq<u8>, order: ByteOrder) -> Seq<AudioValueRange> {
    Seq::new(
        (s.len() / 16) as nat,
        |i: int|
            AudioValueRange {
                minimum_bits: order.quad(s, 16 * i) as u64,
                maximum_bits: order.quad(s, 16 * i + 8) as u64,
            },
    )
}

/// The ranges in a byte string.
pub fn parse_value_ranges(bytes: &[u8], order: ByteOrder) -> (out: Vec<AudioValueRange>)
    ensures
        out@ == ranges_of(bytes@, order),
{
    let mut out: Vec<AudioValueRange> = Vec::new();
    let n: usize = bytes.len() / 16;
    let mut i: usize = 0;
    while i < n
        invariant
            i <= n,
            n == bytes@.len() / 16,
            bytes@.len() <= usize::MAX,
            out@ == ranges_of(bytes@, order).take(i as int),
        decreases n - i,
    {
        let range = AudioValueRange {
            minimum_bits: order.read_quad(bytes, 16 * i),
            maximum_bits: order.read_quad(bytes, 16 * i + 8),
        };
        out.push(range);
        assert(out@ =~= ranges_of(bytes@, order).take(i + 1));
        i = i + 1;
    }
    assert(ranges_of(bytes@, order).take(n as int) =~= ranges_of(bytes@, order));
    out
}

/// A converter that the framework made, by its handle.
#[derive(Debug)]
pub struct Converter {
    raw: usize,
}

impl Converter {
    /// The handle.
    pub closed spec fn handle(self) -> usize {
        self.raw
    }

    /// What the creation of a converter comes to.
    pub fn new(raw: usize, status: OSStatus) -> (r: Result<Converter, AtError>)
        ensures
            match r {
                Ok(c) => status == NO_ERR && c.handle() == raw,
                Err(e) => status != NO_ERR && e@ == (AtErrorView::Os {
                    op: "AudioConverterNew"@,
                    status: classify(status),
                }),
            },
    {
        match check("AudioConverterNew", status) {
            Ok(_) => Ok(Converter { raw }),
            Err(e) => Err(e),
        }
    }

    /// The handle.
    pub fn raw(&self) -> (raw: usize)
        ensures
            raw == self.handle(),
    {
        self.raw
    }

    /// What a reset comes to.
    pub fn reset(&mut self, status: OSStatus) -> (r: Result<(), AtError>)
        ensures
            answers(r, "AudioConverterReset"@, status, ()),
            *final(self) == *old(self),
    {
        check("AudioConverterReset", status)
    }

    /// Set a property.
    pub fn set_property_bytes(&self, property_id: u32, data: &[u8]) -> (w: PropertyWrite)
        ensures
            w.property_id == property_id,
            w.data@ == data@,
    {
        PropertyWrite { property_id, data: slice_to_vec(data) }
    }

    /// Get a property.
    pub fn get_property_bytes(&self, property_id: u32) -> (f: PropertyFetch)
        ensures
            f.property_id == property_id,
    {
        PropertyFetch { property_id }
    }

    /// Set a property that is a 32-bit number.
    pub fn set_u32(&self, property_id: u32, value: u32, order: ByteOrder) -> (w: PropertyWrite)
        ensures
            w.property_id == property_id,
            w.data@ == order.word_bytes(value as int),
    {
        let mut data: Vec<u8> = Vec::new();
        order.push_word(&mut data, value);
        assert(data@ =~= order.word_bytes(value as int));
        PropertyWrite { property_id, data }
    }

    /// Get a property that is a 32-bit number.
    pub fn get_u32(&self, property_id: u32) -> (g: PropertyRead)
        ensures
            g == (PropertyRead { property_id, size: 4 }),
    {
        PropertyRead { property_id, size: 4 }
    }

    /// Install a decompression cookie.
    pub fn set_decompression_magic_cookie(&self, cookie: &[u8]) -> (w: PropertyWrite)
        ensures
            w.property_id == K_AUDIO_CONVERTER_DECOMPRESSION_MAGIC_COOKIE,
            w.data@ == cookie@,
    {
        self.set_property_bytes(K_AUDIO_CONVERTER_DECOMPRESSION_MAGIC_COOKIE, cookie)
    }

    /// Get the cookie that an encoder vends.
    pub fn compression_magic_cookie(&self) -> (f: PropertyFetch)
        ensures
            f.property_id == K_AUDIO_CONVERTER_COMPRESSION_MAGIC_COOKIE,
    {
        self.get_property_bytes(K_AUDIO_CONVERTER_COMPRESSION_MAGIC_COOKIE)
    }

    /// Get the size of the largest packet.
    pub fn max_output_packet_size(&self) -> (g: PropertyRead)
        ensures
            g == (PropertyRead { property_id: K_AUDIO_CONVERTER_MAX_OUTPUT_PACKET_SIZE, size: 4 }),
    {
        self.get_u32(K_AUDIO_CONVERTER_MAX_OUTPUT_PACKET_SIZE)
    }

    /// Ask for a bit rate; the codec settles on one near it.
    pub fn set_encode_bit_rate(&self, bits_per_second: u32, order: ByteOrder) -> (w: PropertyWrite)
        ensures
            w.property_id == K_AUDIO_CONVERTER_ENCODE_BIT_RATE,
            w.data@ == order.word_bytes(bits_per_second as int),
    {
        self.set_u32(K_AUDIO_CONVERTER_ENCODE_BIT_RATE, bits_per_second, order)
    }

    /// Get the bit rate that the codec settled on.
    pub fn encode_bit_rate(&self) -> (g: PropertyRead)
        ensures
            g == (PropertyRead { property_id: K_AUDIO_CONVERTER_ENCODE_BIT_RATE, size: 4 }),
    {
        self.get_u32(K_AUDIO_CONVERTER_ENCODE_BIT_RATE)
    }

    /// Get the description of the output, with what the framework completed in it.
    pub fn current_output_stream_description(&self) -> (g: PropertyRead)
        ensures
            g == (PropertyRead { property_id: K_AUDIO_CONVERTER_CURRENT_OUTPUT_SD, size: 40 }),
    {
        PropertyRead { property_id: K_AUDIO_CONVERTER_CURRENT_OUTPUT_SD, size: 40 }
    }

    /// Get the edge-priming frame counts.
    pub fn prime_info(&self) -> (g: PropertyRead)
        ensures
            g == (PropertyRead { property_id: K_AUDIO_CONVERTER_PRIME_INFO, size: 8 }),
    {
        PropertyRead { property_id: K_AUDIO_CONVERTER_PRIME_INFO, size: 8 }
    }

    /// Get the bit rates that apply to the converter as it is set up.
    pub fn applicable_encode_bit_rates(&self) -> (f: PropertyFetch)
        ensures
            f.property_id == K_AUDIO_CONVERTER_APPLICABLE_ENCODE_BIT_RATES,
    {
        self.get_property_bytes(K_AUDIO_CONVERTER_APPLICABLE_ENCODE_BIT_RATES)
    }

    /// Get all bit rates of the output format.
    pub fn available_encode_bit_rates(&self) -> (f: PropertyFetch)
        ensures
            f.property_id == K_AUDIO_CONVERTER_AVAILABLE_ENCODE_BIT_RATES,
    {
        self.get_property_bytes(K_AUDIO_CONVERTER_AVAILABLE_ENCODE_BIT_RATES)
    }

    /// Get the sample rates that apply to the converter as it is set up.
    pub fn applicable_encode_sample_rates(&self) -> (f: PropertyFetch)
        ensures
            f.property_id == K_AUDIO_CONVERTER_APPLICABLE_ENCODE_SAMPLE_RATES,
    {
        self.get_property_bytes(K_AUDIO_CONVERTER_APPLICABLE_ENCODE_SAMPLE_RATES)
    }

    /// Get all sample rates of the output format.
    pub fn available_encode_sample_rates(&self) -> (f: PropertyFetch)
        ensures
            f.property_id == K_AUDIO_CONVERTER_AVAILABLE_ENCODE_SAMPLE_RATES,
    {
        self.get_property_bytes(K_AUDIO_CONVERTER_AVAILABLE_ENCODE_SAMPLE_RATES)
    }
}

/// The cookie that an encoder's converter vends, out of the answer to
/// [`Converter::compression_magic_cookie`]; `codec` goes into the messages. A converter
/// that vends no bytes has failed.
pub fn read_compression_cookie(codec: &str, reply: PropertyReply) -> (r: Result<Vec<u8>, Error>)
    ensures
        ({
            let op = "(CompressionMagicCookie"@ + codec@ + ")"@;
            if reply.info_status != NO_ERR || reply.size == 0 {
                fails_with(
                    r,
                    status_failure(
                        "GetPropertyInfo"@ + op + (" (size "@ + decimal(reply.size as nat) + ")"@),
                        reply.info_status,
                    ),
                )
            } else if reply.status != NO_ERR {
                fails_with(r, status_failure("GetProperty"@ + op, reply.status))
            } else {
                r is Ok && r->Ok_0@ == reply.bytes()
            }
        }),
{
    let op = join3("(CompressionMagicCookie", codec, ")");
    if reply.info_status != NO_ERR || reply.size == 0 {
        let size = numbered(" (size ", reply.size as u64, ")");
        let text = join3("GetPropertyInfo", op.as_str(), size.as_str());
        return Err(status_error(text.as_str(), reply.info_status));
    }
    if reply.status != NO_ERR {
        let text = "GetProperty".to_owned().concat(op.as_str());
        return Err(status_error(text.as_str(), reply.status));
    }
    let mut bytes = reply.buffer;
    bytes.truncate(reply.written as usize);
    Ok(bytes)
}

/// A call comes to its value exactly if its status is 0, and to a failure that names the
/// call and its status otherwise.
pub proof fn only_zero_is_answered<T>(
    r: Result<T, AtError>,
    op: Seq<char>,
    status: OSStatus,
    value: T,
)
    ensures
        answers(r, op, 0, value) <==> r == Ok::<T, AtError>(value),
        status != 0 ==> (answers(r, op, status, value) <==> (r matches Err(e) && e@ == (
        AtErrorView::Os { op, status: classify(status) }))),
{
}

/// What was written of a buffer is its front, as far as the framework says that it
/// wrote; it is never more than the buffer holds.
pub proof fn buffers_are_cut_to_what_was_written(reply: PropertyReply)
    ensures
        reply.bytes().len() <= reply.buffer@.len(),
        reply.bytes().len() <= reply.written,
        reply.bytes().len() == reply.written || reply.bytes().len() == reply.buffer@.len(),
        forall|i: int| 0 <= i < reply.bytes().len() ==> #[trigger] reply.bytes()[i]
            == reply.buffer@[i],
{
}

/// A failed call for the size is the failure; a size of 0 is success without bytes,
/// whatever the second status; with any other size a failed call for the bytes is the
/// failure, and a successful one gives what was written.
pub proof fn replies_are_read_in_two_steps(
    reply: PropertyReply,
    r: Result<Vec<u8>, AtError>,
    info_op: Seq<char>,
    op: Seq<char>,
)
    ensures
        reply.info_status != 0 ==> (reply.means(r, info_op, op) <==> (r matches Err(e) && e@ == (
        AtErrorView::Os { op: info_op, status: classify(reply.info_status) }))),
        reply.info_status == 0 && reply.size == 0 ==> (reply.means(r, info_op, op) <==> (
        r matches Ok(b) && b@.len() == 0)),
        reply.info_status == 0 && reply.size > 0 && reply.status != 0 ==> (reply.means(
            r,
            info_op,
            op,
        ) <==> (r matches Err(e) && e@ == (AtErrorView::Os {
            op,
            status: classify(reply.status),
        }))),
        reply.info_status == 0 && reply.size > 0 && reply.status == 0 ==> (reply.means(
            r,
            info_op,
            op,
        ) <==> (r matches Ok(b) && b@ == reply.bytes())),
{
    if r is Ok && r->Ok_0@.len() == 0 {
        assert(r->Ok_0@ =~= Seq::<u8>::empty());
    }
}

/// Sixteen bytes make a range, eight for its lower bound and eight for its upper one, in
/// the machine's order; a rest of fewer bytes is ignored, and a failure stays what it is.
pub proof fn ranges_have_sixteen_bytes(
    s: Seq<u8>,
    order: ByteOrder,
    i: int,
    r: Result<Vec<AudioValueRange>, AtError>,
    bytes: Result<Vec<u8>, AtError>,
)
    requires
        s.len() <= usize::MAX,
    ensures
        16 * ranges_of(s, order).len() <= s.len() < 16 * (ranges_of(s, order).len() + 1),
        0 <= i < ranges_of(s, order).len() ==> {
            let range = ranges_of(s, order)[i];
            &&& range.minimum_bits == order.quad(s.subrange(16 * i, 16 * i + 8), 0)
            &&& range.maximum_bits == order.quad(s.subrange(16 * i + 8, 16 * i + 16), 0)
        },
        are_ranges(r, bytes, order) ==> match bytes {
            Ok(b) => r matches Ok(v) && v@ == ranges_of(b@, order),
            Err(e) => r == Err::<Vec<AudioValueRange>, AtError>(e),
        },
{
    if 0 <= i < ranges_of(s, order).len() {
        lemma_quad_at(s, order, 16 * i);
        lemma_quad_at(s, order, 16 * i + 8);
    }
}

proof fn lemma_quad_at(s: Seq<u8>, order: ByteOrder, i: int)
    requires
        0 <= i <= s.len() - 8,
    ensures
        order.quad(s, i) == order.quad(s.subrange(i, i + 8), 0),
        0 <= order.quad(s, i) < 0x1_0000_0000_0000_0000,
{
    let t = s.subrange(i, i + 8);
    assert(t[0] == s[i] && t[1] == s[i + 1] && t[2] == s[i + 2] && t[3] == s[i + 3]);
    assert(t[4] == s[i + 4] && t[5] == s[i + 5] && t[6] == s[i + 6] && t[7] == s[i + 7]);
}

} // verus!
