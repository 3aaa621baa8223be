//! The codec inventory of the system: which formats the framework decodes and encodes,
//! and what it says of a format, before any converter exists.

use vstd::arithmetic::power2::{lemma2_to64, lemma2_to64_rest, lemma_pow2_unfold, pow2};
use vstd::prelude::*;

use crate::bytes::ByteOrder;
use crate::converter::{are_ranges, parse_value_ranges, PropertyReply};
use crate::status::{AtError, AtErrorView, AtStatus};
use crate::sys::{
    format_classification_round_trips, format_of, AudioFormatId, AudioStreamBasicDescription,
    AudioValueRange,
    K_AUDIO_FORMAT_PROPERTY_AVAILABLE_ENCODE_BIT_RATES,
    K_AUDIO_FORMAT_PROPERTY_AVAILABLE_ENCODE_SAMPLE_RATES,
    K_AUDIO_FORMAT_PROPERTY_DECODE_FORMAT_IDS, K_AUDIO_FORMAT_PROPERTY_ENCODE_FORMAT_IDS,
    K_AUDIO_FORMAT_PROPERTY_FORMAT_IS_EXTERNALLY_FRAMED, K_AUDIO_FORMAT_PROPERTY_FORMAT_IS_VBR,
};

verus! {

/// A global property to read: what it is and what it is asked of.
#[derive(Debug)]
pub struct GlobalQuery {
    /// The property.
    pub property_id: u32,
    /// What the property is asked of; empty where it is of the system as a whole.
    pub specifier: Vec<u8>,
}

/// `r` is what an answer to a global query comes to.
pub open spec fn is_global_answer(r: Result<Vec<u8>, AtError>, reply: PropertyReply) -> bool {
    reply.means(r, "AudioFormatGetPropertyInfo"@, "AudioFormatGetProperty"@)
}

fn global_bytes(reply: PropertyReply) -> (r: Result<Vec<u8>, AtError>)
    ensures
        is_global_answer(r, reply),
{
    reply.into_bytes("AudioFormatGetPropertyInfo", "AudioFormatGetProperty")
}

/// The formats in a byte string: four bytes each; fewer bytes at the end are ignored.
pub open spec fn formats_of(s: Seq<u8>, order: ByteOrder) -> Seq<AudioFormatId> {
    Seq::new((s.len() / 4) as nat, |i: int| format_of(order.word(s, 4 * i) as u32))
}

/// The formats in a byte string.
pub fn parse_format_ids(bytes: &[u8], order: ByteOrder) -> (out: Vec<AudioFormatId>)
    ensures
        out@ == formats_of(bytes@, order),
{
    let mut out: Vec<AudioFormatId> = Vec::new();
    let n: usize = bytes.len() / 4;
    let mut i: usize = 0;
    while i < n
        invariant
            i <= n,
            n == bytes@.len() / 4,
            bytes@.len() <= usize::MAX,
            out@ == formats_of(bytes@, order).take(i as int),
        decreases n - i,
    {
        out.push(AudioFormatId::from_u32(order.read_word(bytes, 4 * i)));
        assert(out@ =~= formats_of(bytes@, order).take(i + 1));
        i = i + 1;
    }
    assert(formats_of(bytes@, order).take(n as int) =~= formats_of(bytes@, order));
    out
}

/// Ask which formats the system decodes.
pub fn decode_inventory() -> (q: GlobalQuery)
    ensures
        q.property_id == K_AUDIO_FORMAT_PROPERTY_DECODE_FORMAT_IDS,
        q.specifier@ == Seq::<u8>::empty(),
{
    GlobalQuery {
        property_id: K_AUDIO_FORMAT_PROPERTY_DECODE_FORMAT_IDS,
        specifier: Vec::new(),
    }
}

/// Ask which formats the system encodes to.
pub fn encode_inventory() -> (q: GlobalQuery)
    ensures
        q.property_id == K_AUDIO_FORMAT_PROPERTY_ENCODE_FORMAT_IDS,
        q.specifier@ == Seq::<u8>::empty(),
{
    GlobalQuery {
        property_id: K_AUDIO_FORMAT_PROPERTY_ENCODE_FORMAT_IDS,
        specifier: Vec::new(),
    }
}

/// `r` is the list of formats in `bytes`, or the same failure.
pub open spec fn are_formats(
    r: Result<Vec<AudioFormatId>, AtError>,
    bytes: Result<Vec<u8>, AtError>,
    order: ByteOrder,
) -> bool {
    match bytes {
        Ok(b) => r is Ok && r->Ok_0@ == formats_of(b@, order),
        Err(e) => r is Err && r->Err_0 == e,
    }
}

/// `r` is the inventory in an answer.
pub open spec fn is_inventory(
    r: Result<Vec<AudioFormatId>, AtError>,
    reply: PropertyReply,
    order: ByteOrder,
) -> bool {
    exists|bytes: Result<Vec<u8>, AtError>|
        #[trigger] is_global_answer(bytes, reply) && are_formats(r, bytes, order)
}

fn inventory(reply: PropertyReply, order: ByteOrder) -> (r: Result<Vec<AudioFormatId>, AtError>)
    ensures
        is_inventory(r, reply, order),
{
    let bytes = global_bytes(reply);
    let ghost b = bytes;
    let r = match bytes {
        Ok(bytes) => Ok(parse_format_ids(bytes.as_slice(), order)),
        Err(e) => Err(e),
    };
    assert(are_formats(r, b, order));
    r
}

/// The formats that the system decodes, out of the answer to [`decode_inventory`].
pub fn decodable_format_ids(reply: PropertyReply, order: ByteOrder) -> (r: Result<
    Vec<AudioFormatId>,
    AtError,
>)
    ensures
        is_inventory(r, reply, order),
{
    inventory(reply, order)
}

/// The formats that the system encodes to, out of the answer to [`encode_inventory`].
pub fn encodable_format_ids(reply: PropertyReply, order: ByteOrder) -> (r: Result<
    Vec<AudioFormatId>,
    AtError,
>)
    ensures
        is_inventory(r, reply, order),
{
    inventory(reply, order)
}

/// Whether a format is in a list.
fn lists(ids: &Vec<AudioFormatId>, id: AudioFormatId) -> (yes: bool)
    ensures
        yes == ids@.contains(id),
{
    let mut i: usize = 0;
    while i < ids.len()
        invariant
            i <= ids@.len(),
            forall|j: int| 0 <= j < i ==> ids@[j] != id,
        decreases ids@.len() - i,
    {
        if ids[i] == id {
            return true;
        }
        i = i + 1;
    }
    false
}

/// `r` says whether a format is in the inventory in an answer.
pub open spec fn is_membership(
    r: Result<bool, AtError>,
    id: AudioFormatId,
    reply: PropertyReply,
    order: ByteOrder,
) -> bool {
    exists|ids: Result<Vec<AudioFormatId>, AtError>|
        {
            &&& #[trigger] is_inventory(ids, reply, order)
            &&& match ids {
                Ok(v) => r == Ok::<bool, AtError>(v@.contains(id)),
                Err(e) => r == Err::<bool, AtError>(e),
            }
        }
}

fn membership(id: AudioFormatId, reply: PropertyReply, order: ByteOrder) -> (r: Result<
    bool,
    AtError,
>)
    ensures
        is_membership(r, id, reply, order),
{
    let ids = inventory(reply, order);
    let ghost all = ids;
    let r = match ids {
        Ok(v) => Ok(lists(&v, id)),
        Err(e) => Err(e),
    };
    assert(is_inventory(all, reply, order));
    r
}

/// Whether the system decodes a format, out of the answer to [`decode_inventory`].
pub fn can_decode(id: AudioFormatId, reply: PropertyReply, order: ByteOrder) -> (r: Result<
    bool,
    AtError,
>)
    ensures
        is_membership(r, id, reply, order),
{
    membership(id, reply, order)
}

/// Whether the system encodes to a format, out of the answer to [`encode_inventory`].
pub fn can_encode(id: AudioFormatId, reply: PropertyReply, order: ByteOrder) -> (r: Result<
    bool,
    AtError,
>)
    ensures
        is_membership(r, id, reply, order),
{
    membership(id, reply, order)
}

fn format_specifier(format: AudioFormatId, order: ByteOrder) -> (s: Vec<u8>)
    ensures
        s@ == order.word_bytes(format.raw() as int),
{
    let mut s: Vec<u8> = Vec::new();
    order.push_word(&mut s, format.as_u32());
    assert(s@ =~= order.word_bytes(format.raw() as int));
    s
}

/// Ask for the bit rates of a format's encoder.
pub fn available_encode_bit_rates(format: AudioFormatId, order: ByteOrder) -> (q: GlobalQuery)
    ensures
        q.property_id == K_AUDIO_FORMAT_PROPERTY_AVAILABLE_ENCODE_BIT_RATES,
        q.specifier@ == order.word_bytes(format.raw() as int),
{
    GlobalQuery {
        property_id: K_AUDIO_FORMAT_PROPERTY_AVAILABLE_ENCODE_BIT_RATES,
        specifier: format_specifier(format, order),
    }
}

/// Ask for the sample rates of a format's encoder.
pub fn available_encode_sample_rates(format: AudioFormatId, order: ByteOrder) -> (q: GlobalQuery)
    ensures
        q.property_id == K_AUDIO_FORMAT_PROPERTY_AVAILABLE_ENCODE_SAMPLE_RATES,
        q.specifier@ == order.word_bytes(format.raw() as int),
{
    GlobalQuery {
        property_id: K_AUDIO_FORMAT_PROPERTY_AVAILABLE_ENCODE_SAMPLE_RATES,
        specifier: format_specifier(format, order),
    }
}

/// The value ranges in an answer.
pub fn value_ranges(reply: PropertyReply, order: ByteOrder) -> (r: Result<
    Vec<AudioValueRange>,
    AtError,
>)
    ensures
        exists|bytes: Result<Vec<u8>, AtError>|
            #[trigger] is_global_answer(bytes, reply) && are_ranges(r, bytes, order),
{
    let bytes = global_bytes(reply);
    let ghost b = bytes;
    let r = match bytes {
        Ok(bytes) => Ok(parse_value_ranges(bytes.as_slice(), order)),
        Err(e) => Err(e),
    };
    assert(are_ranges(r, b, order));
    r
}

/// The bits of an IEEE 754 double that is the whole number `n`: where `2^e` is the
/// largest power of two in it, the exponent field holds `1023 + e` and the fraction
/// field the rest, from the top down.
pub open spec fn are_double_bits(bits: u64, n: u32) -> bool {
    if n == 0 {
        bits == 0
    } else {
        exists|e: nat|
            {
                &&& e < 32
                &&& #[trigger] pow2(e) <= n < 2 * pow2(e)
                &&& bits == (1023 + e) * 0x10_0000_0000_0000 + (n - pow2(e)) * pow2(
                    (52 - e) as nat,
                )
            }
    }
}

/// The bits of an IEEE 754 double that is the whole number `n`.
pub fn double_bits(n: u32) -> (bits: u64)
    ensures
        are_double_bits(bits, n),
{
    if n == 0 {
        return 0;
    }
    let mut e: u64 = 0;
    let mut power: u64 = 1;
    let mut unit: u64 = 0x10_0000_0000_0000;
    proof {
        lemma2_to64();
        lemma2_to64_rest();
    }
    while power * 2 <= n as u64
        invariant
            e < 32,
            power == pow2(e as nat),
            unit == pow2((52 - e) as nat),
            1 <= power <= n,
            1 <= unit,
            power * unit == 0x10_0000_0000_0000,
        decreases n - power,
    {
        proof {
            lemma_pow2_unfold((e + 1) as nat);
            lemma_pow2_unfold((52 - e) as nat);
            if e == 31 {
                lemma2_to64();
            }
            assert((power * 2) * (unit / 2) == power * unit) by (nonlinear_arith)
                requires
                    unit % 2 == 0,
            ;
        }
        power = power * 2;
        unit = unit / 2;
        e = e + 1;
    }
    let rest: u64 = n as u64 - power;
    assert(0 <= rest * unit < 0x10_0000_0000_0000) by (nonlinear_arith)
        requires
            0 <= rest < power,
            unit >= 1,
            power * unit == 0x10_0000_0000_0000,
    ;
    let bits: u64 = (1023 + e) * 0x10_0000_0000_0000 + rest * unit;
    assert(pow2(e as nat) <= n < 2 * pow2(e as nat));
    bits
}

/// The bytes of a stream description as the framework lays it out: the sample rate as a
/// double, and eight words.
pub open spec fn is_description_bytes(
    s: Seq<u8>,
    asbd: AudioStreamBasicDescription,
    order: ByteOrder,
) -> bool {
    exists|rate: u64|
        {
            &&& #[trigger] are_double_bits(rate, asbd.sample_rate)
            &&& s == order.quad_bytes(rate as int) + order.word_bytes(asbd.format_id as int)
                + order.word_bytes(asbd.format_flags as int) + order.word_bytes(
                asbd.bytes_per_packet as int,
            ) + order.word_bytes(asbd.frames_per_packet as int) + order.word_bytes(
                asbd.bytes_per_frame as int,
            ) + order.word_bytes(asbd.channels_per_frame as int) + order.word_bytes(
                asbd.bits_per_channel as int,
            ) + order.word_bytes(asbd.reserved as int)
        }
}

fn description_bytes(asbd: &AudioStreamBasicDescription, order: ByteOrder) -> (out: Vec<u8>)
    ensures
        is_description_bytes(out@, *asbd, order),
{
    let rate: u64 = double_bits(asbd.sample_rate);
    let mut out: Vec<u8> = Vec::with_capacity(40);
    order.push_quad(&mut out, rate);
    assert(out@ =~= order.quad_bytes(rate as int));
    order.push_word(&mut out, asbd.format_id);
    order.push_word(&mut out, asbd.format_flags);
    order.push_word(&mut out, asbd.bytes_per_packet);
    order.push_word(&mut out, asbd.frames_per_packet);
    order.push_word(&mut out, asbd.bytes_per_frame);
    order.push_word(&mut out, asbd.channels_per_frame);
    order.push_word(&mut out, asbd.bits_per_channel);
    order.push_word(&mut out, asbd.reserved);
    assert(are_double_bits(rate, asbd.sample_rate));
    out
}

/// Ask whether the packets of a format vary in size.
pub fn format_is_vbr(asbd: &AudioStreamBasicDescription, order: ByteOrder) -> (q: GlobalQuery)
    ensures
        q.property_id == K_AUDIO_FORMAT_PROPERTY_FORMAT_IS_VBR,
        is_description_bytes(q.specifier@, *asbd, order),
{
    GlobalQuery {
        property_id: K_AUDIO_FORMAT_PROPERTY_FORMAT_IS_VBR,
        specifier: description_bytes(asbd, order),
    }
}

/// Ask whether the bounds of a format's packets cannot be told from the bytes alone.
pub fn format_is_externally_framed(asbd: &AudioStreamBasicDescription, order: ByteOrder) -> (q:
    GlobalQuery)
    ensures
        q.property_id == K_AUDIO_FORMAT_PROPERTY_FORMAT_IS_EXTERNALLY_FRAMED,
        is_description_bytes(q.specifier@, *asbd, order),
{
    GlobalQuery {
        property_id: K_AUDIO_FORMAT_PROPERTY_FORMAT_IS_EXTERNALLY_FRAMED,
        specifier: description_bytes(asbd, order),
    }
}

/// `r` is the truth value in `bytes`: a word that is 0 or not. Fewer than four bytes are
/// a failure of their own.
pub open spec fn is_truth(
    r: Result<bool, AtError>,
    bytes: Result<Vec<u8>, AtError>,
    order: ByteOrder,
) -> bool {
    match bytes {
        Ok(b) => if b@.len() < 4 {
            r is Err && r->Err_0@ == (AtErrorView::Os {
                op: "AudioFormatGetProperty"@,
                status: AtStatus::BadPropertySize,
            })
        } else {
            r == Ok::<bool, AtError>(order.word(b@, 0) != 0)
        },
        Err(e) => r == Err::<bool, AtError>(e),
    }
}

/// The truth value in the answer to [`format_is_vbr`] or [`format_is_externally_framed`].
pub fn asbd_bool_property(reply: PropertyReply, order: ByteOrder) -> (r: Result<bool, AtError>)
    ensures
        exists|bytes: Result<Vec<u8>, AtError>|
            #[trigger] is_global_answer(bytes, reply) && is_truth(r, bytes, order),
{
    let bytes = global_bytes(reply);
    let ghost b = bytes;
    let r = match bytes {
        Ok(bytes) => if bytes.len() < 4 {
            Err(
                AtError::Os { op: "AudioFormatGetProperty", status: AtStatus::BadPropertySize },
            )
        } else {
            Ok(order.read_word(bytes.as_slice(), 0) != 0)
        },
        Err(e) => Err(e),
    };
    assert(is_truth(r, b, order));
    r
}

/// The formats that the system decodes and encodes. A list that could not be had is
/// empty.
#[derive(Debug)]
pub struct OsInventory {
    decodable: Vec<AudioFormatId>,
    encodable: Vec<AudioFormatId>,
}

impl OsInventory {
    /// The formats that the system decodes.
    pub closed spec fn decodable_formats(self) -> Seq<AudioFormatId> {
        self.decodable@
    }

    /// The formats that the system encodes to.
    pub closed spec fn encodable_formats(self) -> Seq<AudioFormatId> {
        self.encodable@
    }

    /// The system decodes a format, or its list could not be had.
    pub open spec fn has_decoder(self, id: AudioFormatId) -> bool {
        self.decodable_formats().len() == 0 || self.decodable_formats().contains(id)
    }

    /// The system encodes to a format, or its list could not be had.
    pub open spec fn has_encoder(self, id: AudioFormatId) -> bool {
        self.encodable_formats().len() == 0 || self.encodable_formats().contains(id)
    }

    /// The inventory, out of what [`decodable_format_ids`] and [`encodable_format_ids`]
    /// came to.
    pub fn probe(
        decodable: Result<Vec<AudioFormatId>, AtError>,
        encodable: Result<Vec<AudioFormatId>, AtError>,
    ) -> (inv: OsInventory)
        ensures
            inv.decodable_formats() == match decodable {
                Ok(v) => v@,
                Err(_) => Seq::empty(),
            },
            inv.encodable_formats() == match encodable {
                Ok(v) => v@,
                Err(_) => Seq::empty(),
            },
    {
        OsInventory {
            decodable: match decodable {
                Ok(v) => v,
                Err(_) => Vec::new(),
            },
            encodable: match encodable {
                Ok(v) => v,
                Err(_) => Vec::new(),
            },
        }
    }

    /// Whether the system decodes a format; yes where its list could not be had.
    pub fn decodes(&self, id: AudioFormatId) -> (yes: bool)
        ensures
            yes == self.has_decoder(id),
    {
        self.decodable.len() == 0 || lists(&self.decodable, id)
    }

    /// Whether the system encodes to a format; yes where its list could not be had.
    pub fn encodes(&self, id: AudioFormatId) -> (yes: bool)
        ensures
            yes == self.has_encoder(id),
    {
        self.encodable.len() == 0 || lists(&self.encodable, id)
    }
}

impl Default for OsInventory {
    fn default() -> (inv: OsInventory)
        ensures
            inv.decodable_formats() == Seq::<AudioFormatId>::empty(),
            inv.encodable_formats() == Seq::<AudioFormatId>::empty(),
    {
        OsInventory { decodable: Vec::new(), encodable: Vec::new() }
    }
}

/// Without a list, the system is taken to have every codec.
pub proof fn missing_lists_are_optimistic(inv: OsInventory, id: AudioFormatId)
    ensures
        inv.decodable_formats().len() == 0 ==> inv.has_decoder(id),
        inv.encodable_formats().len() == 0 ==> inv.has_encoder(id),
{
}

/// A system's list of formats keeps each one's identifier, known or not.
pub proof fn inventories_keep_identifiers(s: Seq<u8>, order: ByteOrder, i: int)
    requires
        0 <= i < s.len() / 4,
    ensures
        formats_of(s, order)[i].raw() == order.word(s, 4 * i),
{
    format_classification_round_trips(order.word(s, 4 * i) as u32);
}

/// Four bytes make a format, in the machine's order; a rest of fewer bytes is ignored.
pub proof fn formats_have_four_bytes(s: Seq<u8>, order: ByteOrder, i: int)
    ensures
        4 * formats_of(s, order).len() <= s.len() < 4 * (formats_of(s, order).len() + 1),
        0 <= i < formats_of(s, order).len() ==> formats_of(s, order)[i] == format_of(
            order.word(s.subrange(4 * i, 4 * i + 4), 0) as u32,
        ),
{
    if 0 <= i < formats_of(s, order).len() {
        let t = s.subrange(4 * i, 4 * i + 4);
        assert(t[0] == s[4 * i] && t[1] == s[4 * i + 1] && t[2] == s[4 * i + 2] && t[3] == s[4 * i
            + 3]);
        assert(order.word(t, 0) == order.word(s, 4 * i));
    }
}

/// The inventory in an answer: with both calls successful, the formats of the bytes that
/// were written; none where the size is 0; and otherwise the failure of the call that
/// failed first.
pub proof fn inventories_are_read_from_their_answer(
    r: Result<Vec<AudioFormatId>, AtError>,
    reply: PropertyReply,
    order: ByteOrder,
)
    requires
        is_inventory(r, reply, order),
    ensures
        reply.info_status == 0 && reply.size > 0 && reply.status == 0 ==> r is Ok && r->Ok_0@
            == formats_of(reply.bytes(), order),
        reply.info_status == 0 && reply.size == 0 ==> r is Ok && r->Ok_0@.len() == 0,
        reply.info_status != 0 ==> r is Err && r->Err_0@ == (AtErrorView::Os {
            op: "AudioFormatGetPropertyInfo"@,
            status: crate::status::classify(reply.info_status),
        }),
        reply.info_status == 0 && reply.size > 0 && reply.status != 0 ==> r is Err && r->Err_0@
            == (AtErrorView::Os {
            op: "AudioFormatGetProperty"@,
            status: crate::status::classify(reply.status),
        }),
{
    let bytes = choose|bytes: Result<Vec<u8>, AtError>|
        #[trigger] is_global_answer(bytes, reply) && are_formats(r, bytes, order);
    crate::converter::replies_are_read_in_two_steps(
        reply,
        bytes,
        "AudioFormatGetPropertyInfo"@,
        "AudioFormatGetProperty"@,
    );
}

/// A format is in the inventory of a successful answer exactly if some four bytes of it
/// name the format; a failed answer says nothing of any format.
pub proof fn membership_is_told_by_the_bytes(
    r: Result<bool, AtError>,
    id: AudioFormatId,
    reply: PropertyReply,
    order: ByteOrder,
)
    requires
        is_membership(r, id, reply, order),
    ensures
        reply.info_status == 0 && reply.size > 0 && reply.status == 0 ==> {
            &&& r is Ok
            &&& r->Ok_0 <==> formats_of(reply.bytes(), order).contains(id)
        },
        reply.info_status == 0 && reply.size == 0 ==> r is Ok && !r->Ok_0,
        reply.info_status != 0 || reply.size > 0 && reply.status != 0 ==> r is Err,
{
    let ids = choose|ids: Result<Vec<AudioFormatId>, AtError>|
        {
            &&& #[trigger] is_inventory(ids, reply, order)
            &&& match ids {
                Ok(v) => r == Ok::<bool, AtError>(v@.contains(id)),
                Err(e) => r == Err::<bool, AtError>(e),
            }
        };
    inventories_are_read_from_their_answer(ids, reply, order);
}

/// A truth value has four bytes, and any of their bits that is set makes it true; fewer
/// bytes are a property of the wrong size, and a failure stays what it is.
pub proof fn truth_is_any_bit(
    r: Result<bool, AtError>,
    bytes: Result<Vec<u8>, AtError>,
    order: ByteOrder,
)
    requires
        is_truth(r, bytes, order),
    ensures
        match bytes {
            Ok(b) => {
                &&& b@.len() >= 4 ==> {
                    &&& r is Ok
                    &&& r->Ok_0 <==> b@[0] != 0 || b@[1] != 0 || b@[2] != 0 || b@[3] != 0
                }
                &&& b@.len() < 4 ==> r is Err && r->Err_0@ == (AtErrorView::Os {
                    op: "AudioFormatGetProperty"@,
                    status: AtStatus::BadPropertySize,
                })
            },
            Err(e) => r == Err::<bool, AtError>(e),
        },
{
}

/// The system has a codec if its list names the format, or names none at all.
pub proof fn lists_tell_the_codecs(inv: OsInventory, id: AudioFormatId)
    ensures
        inv.has_decoder(id) <==> inv.decodable_formats().len() == 0
            || inv.decodable_formats().contains(id),
        inv.has_encoder(id) <==> inv.encodable_formats().len() == 0
            || inv.encodable_formats().contains(id),
{
}

/// A whole number has exactly one double: two numbers never share their bits, and the
/// bits of one number are always the same. A power of two is its exponent alone.
pub proof fn doubles_tell_their_number(bits: u64, other: u64, n: u32, e: nat)
    requires
        are_double_bits(bits, n),
    ensures
        are_double_bits(other, n) ==> other == bits,
        n == 0 <==> bits == 0,
        n > 0 ==> 1023 <= bits / 0x10_0000_0000_0000 < 1023 + 32,
        n > 0 ==> {
            let k = (bits / 0x10_0000_0000_0000 - 1023) as nat;
            let fraction = bits as int % 0x10_0000_0000_0000;
            &&& pow2(k) <= n < 2 * pow2(k)
            &&& (0x10_0000_0000_0000 + fraction) == n * pow2((52 - k) as nat)
        },
        e < 32 && n == pow2(e) ==> bits == (1023 + e) * 0x10_0000_0000_0000,
{
    if n > 0 {
        let k = lemma_double_parts(bits, n);
        if are_double_bits(other, n) {
            let j = lemma_double_parts(other, n);
            lemma_same_exponent(k, j, n as int);
        }
        if e < 32 && n == pow2(e) {
            lemma_same_exponent(k, e, n as int);
            assert((n - pow2(k)) * pow2((52 - k) as nat) == 0) by (nonlinear_arith)
                requires
                    n == pow2(k),
            ;
        }
    }
    if n == 0 && e < 32 {
        vstd::arithmetic::power2::lemma_pow2_pos(e);
    }
}

proof fn lemma_same_exponent(a: nat, b: nat, n: int)
    requires
        pow2(a) <= n < 2 * pow2(a),
        pow2(b) <= n < 2 * pow2(b),
    ensures
        a == b,
{
    if a < b {
        lemma_pow2_unfold((a + 1) as nat);
        if a + 1 < b {
            vstd::arithmetic::power2::lemma_pow2_strictly_increases((a + 1) as nat, b);
        }
    } else if b < a {
        lemma_pow2_unfold((b + 1) as nat);
        if b + 1 < a {
            vstd::arithmetic::power2::lemma_pow2_strictly_increases((b + 1) as nat, a);
        }
    }
}

proof fn lemma_double_parts(bits: u64, n: u32) -> (e: nat)
    requires
        are_double_bits(bits, n),
        n > 0,
    ensures
        e < 32,
        pow2(e) <= n < 2 * pow2(e),
        bits == (1023 + e) * 0x10_0000_0000_0000 + (n - pow2(e)) * pow2((52 - e) as nat),
        bits / 0x10_0000_0000_0000 == 1023 + e,
        0x10_0000_0000_0000 + bits as int % 0x10_0000_0000_0000 == n * pow2((52 - e) as nat),
{
    let e = choose|e: nat|
        {
            &&& e < 32
            &&& #[trigger] pow2(e) <= n < 2 * pow2(e)
            &&& bits == (1023 + e) * 0x10_0000_0000_0000 + (n - pow2(e)) * pow2((52 - e) as nat)
        };
    let p = pow2(e) as int;
    let u = pow2((52 - e) as nat) as int;
    vstd::arithmetic::power2::lemma_pow2_adds(e, (52 - e) as nat);
    vstd::arithmetic::power2::lemma_pow2_pos((52 - e) as nat);
    lemma2_to64_rest();
    assert(p * u == 0x10_0000_0000_0000);
    let rest = (n - p) * u;
    assert(0 <= rest < 0x10_0000_0000_0000 && n * u == 0x10_0000_0000_0000 + rest)
        by (nonlinear_arith)
        requires
            p <= n < 2 * p,
            u > 0,
            p * u == 0x10_0000_0000_0000,
            rest == (n - p) * u,
    ;
    e
}

/// A stream description has 40 bytes: eight for the sample rate as a double, and four for
/// each of the eight numbers, in the order of their fields.
#[verifier::spinoff_prover]
#[verifier::rlimit(60)]
pub proof fn descriptions_are_laid_out_in_order(
    s: Seq<u8>,
    asbd: AudioStreamBasicDescription,
    order: ByteOrder,
)
    requires
        is_description_bytes(s, asbd, order),
    ensures
        s.len() == 40,
        exists|rate: u64|
            #[trigger] are_double_bits(rate, asbd.sample_rate) && s.subrange(0, 8)
                == order.quad_bytes(rate as int),
        s.subrange(8, 12) == order.word_bytes(asbd.format_id as int),
        s.subrange(12, 16) == order.word_bytes(asbd.format_flags as int),
        s.subrange(16, 20) == order.word_bytes(asbd.bytes_per_packet as int),
        s.subrange(20, 24) == order.word_bytes(asbd.frames_per_packet as int),
        s.subrange(24, 28) == order.word_bytes(asbd.bytes_per_frame as int),
        s.subrange(28, 32) == order.word_bytes(asbd.channels_per_frame as int),
        s.subrange(32, 36) == order.word_bytes(asbd.bits_per_channel as int),
        s.subrange(36, 40) == order.word_bytes(asbd.reserved as int),
{
    let rate = choose|rate: u64|
        {
            &&& #[trigger] are_double_bits(rate, asbd.sample_rate)
            &&& s == order.quad_bytes(rate as int) + order.word_bytes(asbd.format_id as int)
                + order.word_bytes(asbd.format_flags as int) + order.word_bytes(
                asbd.bytes_per_packet as int,
            ) + order.word_bytes(asbd.frames_per_packet as int) + order.word_bytes(
                asbd.bytes_per_frame as int,
            ) + order.word_bytes(asbd.channels_per_frame as int) + order.word_bytes(
                asbd.bits_per_channel as int,
            ) + order.word_bytes(asbd.reserved as int)
        };
    lemma_quad_length(order, rate as int);
    lemma_word_length(order, asbd.format_id as int);
    lemma_word_length(order, asbd.format_flags as int);
    lemma_word_length(order, asbd.bytes_per_packet as int);
    lemma_word_length(order, asbd.frames_per_packet as int);
    lemma_word_length(order, asbd.bytes_per_frame as int);
    lemma_word_length(order, asbd.channels_per_frame as int);
    lemma_word_length(order, asbd.bits_per_channel as int);
    lemma_word_length(order, asbd.reserved as int);
    lemma_nine_parts(
        order.quad_bytes(rate as int),
        order.word_bytes(asbd.format_id as int),
        order.word_bytes(asbd.format_flags as int),
        order.word_bytes(asbd.bytes_per_packet as int),
        order.word_bytes(asbd.frames_per_packet as int),
        order.word_bytes(asbd.bytes_per_frame as int),
        order.word_bytes(asbd.channels_per_frame as int),
        order.word_bytes(asbd.bits_per_channel as int),
        order.word_bytes(asbd.reserved as int),
    );
}

proof fn lemma_word_length(order: ByteOrder, v: int)
    ensures
        order.word_bytes(v).len() == 4,
{
}

proof fn lemma_quad_length(order: ByteOrder, v: int)
    ensures
        order.quad_bytes(v).len() == 8,
{
}

#[verifier::spinoff_prover]
proof fn lemma_nine_parts(
    q: Seq<u8>,
    a: Seq<u8>,
    b: Seq<u8>,
    c: Seq<u8>,
    d: Seq<u8>,
    e: Seq<u8>,
    f: Seq<u8>,
    g: Seq<u8>,
    h: Seq<u8>,
)
    requires
        q.len() == 8,
        a.len() == 4,
        b.len() == 4,
        c.len() == 4,
        d.len() == 4,
        e.len() == 4,
        f.len() == 4,
        g.len() == 4,
        h.len() == 4,
    ensures
        ({
            let s = q + a + b + c + d + e + f + g + h;
            &&& s.len() == 40
            &&& s.subrange(0, 8) == q
            &&& s.subrange(8, 12) == a
            &&& s.subrange(12, 16) == b
            &&& s.subrange(16, 20) == c
            &&& s.subrange(20, 24) == d
            &&& s.subrange(24, 28) == e
            &&& s.subrange(28, 32) == f
            &&& s.subrange(32, 36) == g
            &&& s.subrange(36, 40) == h
        }),
{
    let s = q + a + b + c + d + e + f + g + h;
    assert(s.subrange(0, 8) =~= q);
    assert(s.subrange(8, 12) =~= a);
    assert(s.subrange(12, 16) =~= b);
    assert(s.subrange(16, 20) =~= c);
    assert(s.subrange(20, 24) =~= d);
    assert(s.subrange(24, 28) =~= e);
    assert(s.subrange(28, 32) =~= f);
    assert(s.subrange(32, 36) =~= g);
    assert(s.subrange(36, 40) =~= h);
}

} // verus!
