//! Numbers in byte strings, most or least significant byte first.

use vstd::prelude::*;
use vstd::slice::slice_subrange;

verus! {

/// Two bytes at `i`, most significant first.
pub open spec fn be16(s: Seq<u8>, i: int) -> int {
    s[i] * 0x100 + s[i + 1]
}

/// Three bytes at `i`, most significant first.
pub open spec fn be24(s: Seq<u8>, i: int) -> int {
    s[i] * 0x1_0000 + s[i + 1] * 0x100 + s[i + 2]
}

/// Four bytes at `i`, most significant first.
pub open spec fn be32(s: Seq<u8>, i: int) -> int {
    s[i] * 0x100_0000 + s[i + 1] * 0x1_0000 + s[i + 2] * 0x100 + s[i + 3]
}

/// Eight bytes at `i`, most significant first.
pub open spec fn be64(s: Seq<u8>, i: int) -> int {
    be32(s, i) * 0x1_0000_0000 + be32(s, i + 4)
}

/// Two bytes at `i`, least significant first.
pub open spec fn le16(s: Seq<u8>, i: int) -> int {
    s[i] + s[i + 1] * 0x100
}

/// Four bytes at `i`, least significant first.
pub open spec fn le32(s: Seq<u8>, i: int) -> int {
    s[i] + s[i + 1] * 0x100 + s[i + 2] * 0x1_0000 + s[i + 3] * 0x100_0000
}

/// Eight bytes at `i`, least significant first.
pub open spec fn le64(s: Seq<u8>, i: int) -> int {
    le32(s, i) + le32(s, i + 4) * 0x1_0000_0000
}

/// The low 16 bits of `v` as two bytes, most significant first.
pub open spec fn be16_bytes(v: int) -> Seq<u8> {
    seq![(v / 0x100 % 0x100) as u8, (v % 0x100) as u8]
}

/// The low 24 bits of `v` as three bytes, most significant first.
pub open spec fn be24_bytes(v: int) -> Seq<u8> {
    seq![(v / 0x1_0000 % 0x100) as u8, (v / 0x100 % 0x100) as u8, (v % 0x100) as u8]
}

/// The low 32 bits of `v` as four bytes, most significant first.
pub open spec fn be32_bytes(v: int) -> Seq<u8> {
    seq![
        (v / 0x100_0000 % 0x100) as u8,
        (v / 0x1_0000 % 0x100) as u8,
        (v / 0x100 % 0x100) as u8,
        (v % 0x100) as u8,
    ]
}

/// The low 64 bits of `v` as eight bytes, most significant first.
pub open spec fn be64_bytes(v: int) -> Seq<u8> {
    be32_bytes(v / 0x1_0000_0000) + be32_bytes(v % 0x1_0000_0000)
}

/// The low 16 bits of `v` as two bytes, least significant first.
pub open spec fn le16_bytes(v: int) -> Seq<u8> {
    seq![(v % 0x100) as u8, (v / 0x100 % 0x100) as u8]
}

/// The low 32 bits of `v` as four bytes, least significant first.
pub open spec fn le32_bytes(v: int) -> Seq<u8> {
    seq![
        (v % 0x100) as u8,
        (v / 0x100 % 0x100) as u8,
        (v / 0x1_0000 % 0x100) as u8,
        (v / 0x100_0000 % 0x100) as u8,
    ]
}

/// Read two bytes, most significant first.
pub fn read_be16(b: &[u8], i: usize) -> (v: u16)
    requires
        i + 2 <= b@.len(),
    ensures
        v == be16(b@, i as int),
{
    b[i] as u16 * 0x100 + b[i + 1] as u16
}

/// Read three bytes, most significant first.
pub fn read_be24(b: &[u8], i: usize) -> (v: u32)
    requires
        i + 3 <= b@.len(),
    ensures
        v == be24(b@, i as int),
{
    b[i] as u32 * 0x1_0000 + b[i + 1] as u32 * 0x100 + b[i + 2] as u32
}

/// Read four bytes, most significant first.
pub fn read_be32(b: &[u8], i: usize) -> (v: u32)
    requires
        i + 4 <= b@.len(),
    ensures
        v == be32(b@, i as int),
{
    b[i] as u32 * 0x100_0000 + b[i + 1] as u32 * 0x1_0000 + b[i + 2] as u32 * 0x100
        + b[i + 3] as u32
}

/// Read eight bytes, most significant first.
pub fn read_be64(b: &[u8], i: usize) -> (v: u64)
    requires
        i + 8 <= b@.len(),
    ensures
        v == be64(b@, i as int),
{
    assert(i + 4 <= b.len());
    read_be32(b, i) as u64 * 0x1_0000_0000 + read_be32(b, i + 4) as u64
}

/// Read two bytes, least significant first.
pub fn read_le16(b: &[u8], i: usize) -> (v: u16)
    requires
        i + 2 <= b@.len(),
    ensures
        v == le16(b@, i as int),
{
    b[i] as u16 + b[i + 1] as u16 * 0x100
}

/// Read four bytes, least significant first.
pub fn read_le32(b: &[u8], i: usize) -> (v: u32)
    requires
        i + 4 <= b@.len(),
    ensures
        v == le32(b@, i as int),
{
    b[i] as u32 + b[i + 1] as u32 * 0x100 + b[i + 2] as u32 * 0x1_0000 + b[i + 3] as u32
        * 0x100_0000
}

/// Read eight bytes, least significant first.
pub fn read_le64(b: &[u8], i: usize) -> (v: u64)
    requires
        i + 8 <= b@.len(),
    ensures
        v == le64(b@, i as int),
{
    assert(i + 4 <= b.len());
    read_le32(b, i) as u64 + read_le32(b, i + 4) as u64 * 0x1_0000_0000
}

/// The four bytes of `v`, most significant first.
pub fn be32_array(v: u32) -> (out: [u8; 4])
    ensures
        out@ == be32_bytes(v as int),
{
    let out: [u8; 4] = [
        (v / 0x100_0000) as u8,
        (v / 0x1_0000 % 0x100) as u8,
        (v / 0x100 % 0x100) as u8,
        (v % 0x100) as u8,
    ];
    assert(out@ =~= be32_bytes(v as int));
    out
}

/// The eight bytes of `v`, most significant first.
pub fn be64_array(v: u64) -> (out: [u8; 8])
    ensures
        out@ == be64_bytes(v as int),
{
    let h = be32_array((v / 0x1_0000_0000) as u32);
    let l = be32_array((v % 0x1_0000_0000) as u32);
    let out: [u8; 8] = [h[0], h[1], h[2], h[3], l[0], l[1], l[2], l[3]];
    assert(out@ =~= h@ + l@);
    out
}

/// Two bytes read back as the number that was written to them.
pub proof fn be16_reads_back(s: Seq<u8>, i: int, v: int)
    requires
        0 <= i <= s.len() - 2,
        0 <= v < 0x1_0000,
        s.subrange(i, i + 2) == be16_bytes(v),
    ensures
        be16(s, i) == v,
{
    let t = s.subrange(i, i + 2);
    assert(s[i] == t[0] && s[i + 1] == t[1]);
}

/// Three bytes read back as the number that was written to them.
pub proof fn be24_reads_back(s: Seq<u8>, i: int, v: int)
    requires
        0 <= i <= s.len() - 3,
        0 <= v < 0x100_0000,
        s.subrange(i, i + 3) == be24_bytes(v),
    ensures
        be24(s, i) == v,
{
    let t = s.subrange(i, i + 3);
    assert(s[i] == t[0] && s[i + 1] == t[1] && s[i + 2] == t[2]);
}

/// Four bytes read back as the number that was written to them.
pub proof fn be32_reads_back(s: Seq<u8>, i: int, v: int)
    requires
        0 <= i <= s.len() - 4,
        0 <= v < 0x1_0000_0000,
        s.subrange(i, i + 4) == be32_bytes(v),
    ensures
        be32(s, i) == v,
{
    let t = s.subrange(i, i + 4);
    assert(s[i] == t[0] && s[i + 1] == t[1] && s[i + 2] == t[2] && s[i + 3] == t[3]);
}

/// Eight bytes read back as the number that was written to them.
pub proof fn be64_reads_back(s: Seq<u8>, i: int, v: int)
    requires
        0 <= i <= s.len() - 8,
        0 <= v < 0x1_0000_0000_0000_0000,
        s.subrange(i, i + 8) == be64_bytes(v),
    ensures
        be64(s, i) == v,
{
    let t = s.subrange(i, i + 8);
    assert(s.subrange(i, i + 4) =~= t.subrange(0, 4));
    assert(t.subrange(0, 4) =~= be32_bytes(v / 0x1_0000_0000));
    assert(s.subrange(i + 4, i + 8) =~= t.subrange(4, 8));
    assert(t.subrange(4, 8) =~= be32_bytes(v % 0x1_0000_0000));
    be32_reads_back(s, i, v / 0x1_0000_0000);
    be32_reads_back(s, i + 4, v % 0x1_0000_0000);
}

/// Two bytes are those of the number that they make.
pub proof fn be16_writes_back(s: Seq<u8>, i: int)
    requires
        0 <= i <= s.len() - 2,
    ensures
        be16_bytes(be16(s, i)) == s.subrange(i, i + 2),
{
    let (c, d) = (s[i] as int, s[i + 1] as int);
    lemma_base256_digits(0, 0, c, d);
    assert(be16_bytes(be16(s, i)) =~= seq![c as u8, d as u8]);
    assert(s.subrange(i, i + 2) =~= seq![c as u8, d as u8]);
}

/// Three bytes are those of the number that they make.
pub proof fn be24_writes_back(s: Seq<u8>, i: int)
    requires
        0 <= i <= s.len() - 3,
    ensures
        be24_bytes(be24(s, i)) == s.subrange(i, i + 3),
{
    let (b, c, d) = (s[i] as int, s[i + 1] as int, s[i + 2] as int);
    lemma_base256_digits(0, b, c, d);
    assert(be24(s, i) == b * 0x1_0000 + c * 0x100 + d);
    assert(be24_bytes(be24(s, i)) =~= seq![b as u8, c as u8, d as u8]);
    assert(s.subrange(i, i + 3) =~= seq![b as u8, c as u8, d as u8]);
}

#[verifier::spinoff_prover]
proof fn lemma_base256_digits(a: int, b: int, c: int, d: int)
    requires
        0 <= a < 256,
        0 <= b < 256,
        0 <= c < 256,
        0 <= d < 256,
    ensures
        ({
            let v = a * 0x100_0000 + b * 0x1_0000 + c * 0x100 + d;
            &&& 0 <= v < 0x1_0000_0000
            &&& v / 0x100_0000 % 0x100 == a
            &&& v / 0x1_0000 % 0x100 == b
            &&& v / 0x100 % 0x100 == c
            &&& v % 0x100 == d
        }),
{
    let v = a * 0x100_0000 + b * 0x1_0000 + c * 0x100 + d;
    assert(v / 0x100_0000 == a);
    assert(v / 0x1_0000 == a * 0x100 + b);
    assert(v / 0x100 == a * 0x1_0000 + b * 0x100 + c);
}

/// Four bytes are those of the number that they make.
pub proof fn be32_writes_back(s: Seq<u8>, i: int)
    requires
        0 <= i <= s.len() - 4,
    ensures
        0 <= be32(s, i) < 0x1_0000_0000,
        be32_bytes(be32(s, i)) == s.subrange(i, i + 4),
{
    let (a, b, c, d) = (s[i] as int, s[i + 1] as int, s[i + 2] as int, s[i + 3] as int);
    lemma_base256_digits(a, b, c, d);
    assert(be32_bytes(be32(s, i)) =~= seq![a as u8, b as u8, c as u8, d as u8]);
    assert(s.subrange(i, i + 4) =~= seq![a as u8, b as u8, c as u8, d as u8]);
}

/// Eight bytes are those of the number that they make.
pub proof fn be64_writes_back(s: Seq<u8>, i: int)
    requires
        0 <= i <= s.len() - 8,
    ensures
        0 <= be64(s, i) < 0x1_0000_0000_0000_0000,
        be64_bytes(be64(s, i)) == s.subrange(i, i + 8),
{
    let h = be32(s, i);
    let l = be32(s, i + 4);
    let hb = be32_bytes(h);
    let lb = be32_bytes(l);
    be32_writes_back(s, i);
    be32_writes_back(s, i + 4);
    assert((h * 0x1_0000_0000 + l) / 0x1_0000_0000 == h && (h * 0x1_0000_0000 + l) % 0x1_0000_0000
        == l);
    assert(hb + lb =~= s.subrange(i, i + 8));
}

/// Append the two bytes of `v`, least significant first.
pub fn push_le16(out: &mut Vec<u8>, v: u16)
    ensures
        final(out)@ == old(out)@ + le16_bytes(v as int),
{
    out.push((v % 0x100) as u8);
    out.push((v / 0x100) as u8);
}

/// Append the four bytes of `v`, least significant first.
pub fn push_le32(out: &mut Vec<u8>, v: u32)
    ensures
        final(out)@ == old(out)@ + le32_bytes(v as int),
{
    out.push((v % 0x100) as u8);
    out.push((v / 0x100 % 0x100) as u8);
    out.push((v / 0x1_0000 % 0x100) as u8);
    out.push((v / 0x100_0000) as u8);
}

/// Append the four bytes of `v`, most significant first.
pub fn push_be32(out: &mut Vec<u8>, v: u32)
    ensures
        final(out)@ == old(out)@ + be32_bytes(v as int),
{
    out.push((v / 0x100_0000) as u8);
    out.push((v / 0x1_0000 % 0x100) as u8);
    out.push((v / 0x100 % 0x100) as u8);
    out.push((v % 0x100) as u8);
}

/// Append a byte string.
pub fn push_bytes(out: &mut Vec<u8>, s: &[u8])
    ensures
        final(out)@ == old(out)@ + s@,
{
    let mut i: usize = 0;
    while i < s.len()
        invariant
            i <= s@.len(),
            out@ == old(out)@ + s@.subrange(0, i as int),
        decreases s@.len() - i,
    {
        out.push(s[i]);
        i = i + 1;
        assert(s@.subrange(0, i as int) =~= s@.subrange(0, i - 1).push(s@[i - 1]));
    }
    assert(s@.subrange(0, i as int) =~= s@);
}

/// The bytes of `s` from `from` up to `to`.
pub fn copy_range(s: &[u8], from: usize, to: usize) -> (out: Vec<u8>)
    requires
        from <= to <= s@.len(),
    ensures
        out@ == s@.subrange(from as int, to as int),
{
    vstd::slice::slice_to_vec(slice_subrange(s, from, to))
}

/// The order of the bytes in a machine's words.
#[derive(Clone, Copy, Debug, PartialEq, Eq, Structural)]
pub enum ByteOrder {
    /// Least significant first.
    Little,
    /// Most significant first.
    Big,
}

impl ByteOrder {
    /// Four bytes at `i`.
    pub open spec fn word(self, s: Seq<u8>, i: int) -> int {
        match self {
            ByteOrder::Little => le32(s, i),
            ByteOrder::Big => be32(s, i),
        }
    }

    /// Eight bytes at `i`.
    pub open spec fn quad(self, s: Seq<u8>, i: int) -> int {
        match self {
            ByteOrder::Little => le64(s, i),
            ByteOrder::Big => be64(s, i),
        }
    }

    /// The low 32 bits of `v` as four bytes.
    pub open spec fn word_bytes(self, v: int) -> Seq<u8> {
        match self {
            ByteOrder::Little => le32_bytes(v),
            ByteOrder::Big => be32_bytes(v),
        }
    }

    /// The low 64 bits of `v` as eight bytes.
    pub open spec fn quad_bytes(self, v: int) -> Seq<u8> {
        match self {
            ByteOrder::Little => le32_bytes(v % 0x1_0000_0000) + le32_bytes(v / 0x1_0000_0000),
            ByteOrder::Big => be64_bytes(v),
        }
    }

    /// Read four bytes.
    pub fn read_word(self, b: &[u8], i: usize) -> (v: u32)
        requires
            i + 4 <= b@.len(),
        ensures
            v == self.word(b@, i as int),
    {
        match self {
            ByteOrder::Little => read_le32(b, i),
            ByteOrder::Big => read_be32(b, i),
        }
    }

    /// Read eight bytes.
    pub fn read_quad(self, b: &[u8], i: usize) -> (v: u64)
        requires
            i + 8 <= b@.len(),
        ensures
            v == self.quad(b@, i as int),
    {
        match self {
            ByteOrder::Little => read_le64(b, i),
            ByteOrder::Big => read_be64(b, i),
        }
    }

    /// Append the four bytes of `v`.
    pub fn push_word(self, out: &mut Vec<u8>, v: u32)
        ensures
            final(out)@ == old(out)@ + self.word_bytes(v as int),
    {
        match self {
            ByteOrder::Little => push_le32(out, v),
            ByteOrder::Big => push_be32(out, v),
        }
    }

    /// Append the eight bytes of `v`.
    pub fn push_quad(self, out: &mut Vec<u8>, v: u64)
        ensures
            final(out)@ == old(out)@ + self.quad_bytes(v as int),
    {
        let high: u32 = (v / 0x1_0000_0000) as u32;
        let low: u32 = (v % 0x1_0000_0000) as u32;
        match self {
            ByteOrder::Little => {
                push_le32(out, low);
                push_le32(out, high);
            },
            ByteOrder::Big => {
                push_be32(out, high);
                push_be32(out, low);
            },
        }
        assert(out@ =~= old(out)@ + self.quad_bytes(v as int));
    }
}

/// A word reads back as it was written, in either order.
pub proof fn words_read_back(order: ByteOrder, v: u32)
    ensures
        order.word(order.word_bytes(v as int), 0) == v,
{
    match order {
        ByteOrder::Little => {
            let b = le32_bytes(v as int);
            assert(le32(b, 0) == v);
        },
        ByteOrder::Big => {
            let b = be32_bytes(v as int);
            assert(b.subrange(0, 4) =~= b);
            be32_reads_back(b, 0, v as int);
        },
    }
}

/// Each further byte of a number written most significant first stands for 256 times
/// less than the one before it.
pub proof fn big_endian_place_values(s: Seq<u8>, i: int)
    requires
        0 <= i <= s.len() - 8,
    ensures
        be16(s, i) == 256 * s[i] + s[i + 1],
        be24(s, i) == 256 * be16(s, i) + s[i + 2],
        be32(s, i) == 256 * be24(s, i) + s[i + 3],
        be64(s, i) == 256 * (256 * (256 * (256 * be32(s, i) + s[i + 4]) + s[i + 5]) + s[i + 6]) + s[i
            + 7],
{
}

/// A number written least significant first is the one that its bytes make from the last
/// to the first.
pub proof fn little_endian_place_values(s: Seq<u8>, i: int)
    requires
        0 <= i <= s.len() - 8,
    ensures
        le16(s, i) == be16(seq![s[i + 1], s[i]], 0),
        le32(s, i) == be32(seq![s[i + 3], s[i + 2], s[i + 1], s[i]], 0),
        le64(s, i) == be64(
            seq![
                s[i + 7],
                s[i + 6],
                s[i + 5],
                s[i + 4],
                s[i + 3],
                s[i + 2],
                s[i + 1],
                s[i],
            ],
            0,
        ),
{
}

/// Numbers that fit have as many bytes as their width says, and these make the numbers
/// again; of a number that does not fit, the low bits are written.
pub proof fn numbers_read_back(v: int)
    requires
        0 <= v,
    ensures
        be16_bytes(v).len() == 2,
        be24_bytes(v).len() == 3,
        be32_bytes(v).len() == 4,
        be64_bytes(v).len() == 8,
        le16_bytes(v).len() == 2,
        le32_bytes(v).len() == 4,
        be16(be16_bytes(v), 0) == v % 0x1_0000,
        be24(be24_bytes(v), 0) == v % 0x100_0000,
        be32(be32_bytes(v), 0) == v % 0x1_0000_0000,
        le16(le16_bytes(v), 0) == v % 0x1_0000,
        le32(le32_bytes(v), 0) == v % 0x1_0000_0000,
        v < 0x1_0000_0000_0000_0000 ==> be64(be64_bytes(v), 0) == v,
{
    lemma_short_numbers_read_back(v);
    lemma_words_read_back(v);
    if v < 0x1_0000_0000_0000_0000 {
        lemma_quads_read_back(v);
    }
}

#[verifier::spinoff_prover]
proof fn lemma_short_numbers_read_back(v: int)
    requires
        0 <= v,
    ensures
        be16(be16_bytes(v), 0) == v % 0x1_0000,
        be24(be24_bytes(v), 0) == v % 0x100_0000,
        le16(le16_bytes(v), 0) == v % 0x1_0000,
{
    lemma_four_digits(v);
}

#[verifier::spinoff_prover]
proof fn lemma_words_read_back(v: int)
    requires
        0 <= v,
    ensures
        be32(be32_bytes(v), 0) == v % 0x1_0000_0000,
        le32(le32_bytes(v), 0) == v % 0x1_0000_0000,
        forall|j: int| 0 <= j < 4 ==> #[trigger] le32_bytes(v)[j] == be32_bytes(v)[3 - j],
{
    lemma_four_digits(v);
}

#[verifier::spinoff_prover]
proof fn lemma_quads_read_back(v: int)
    requires
        0 <= v < 0x1_0000_0000_0000_0000,
    ensures
        be64(be64_bytes(v), 0) == v,
        ByteOrder::Big.quad(ByteOrder::Big.quad_bytes(v), 0) == v,
        ByteOrder::Little.quad(ByteOrder::Little.quad_bytes(v), 0) == v,
        forall|j: int|
            0 <= j < 8 ==> #[trigger] ByteOrder::Little.quad_bytes(v)[j]
                == ByteOrder::Big.quad_bytes(v)[7 - j],
{
    let high = v / 0x1_0000_0000;
    let low = v % 0x1_0000_0000;
    assert(0 <= high < 0x1_0000_0000 && v == high * 0x1_0000_0000 + low);
    assert(high % 0x1_0000_0000 == high);
    lemma_words_read_back(high);
    lemma_words_read_back(low);
    let h = be32_bytes(high);
    let l = be32_bytes(low);
    let big = h + l;
    assert(be32(big, 0) == be32(h, 0) && be32(big, 4) == be32(l, 0));
    let x = le32_bytes(low);
    let y = le32_bytes(high);
    let little = x + y;
    assert(le32(little, 0) == le32(x, 0) && le32(little, 4) == le32(y, 0));
    assert forall|j: int| 0 <= j < 8 implies #[trigger] little[j] == big[7 - j] by {
        if j < 4 {
            assert(little[j] == x[j]);
            assert(x[j] == l[3 - j]);
        } else {
            assert(little[j] == y[j - 4]);
            assert(y[j - 4] == h[7 - j]);
        }
    }
}

#[verifier::spinoff_prover]
proof fn lemma_four_digits(v: int)
    requires
        0 <= v,
    ensures
        ({
            let a = v / 0x100_0000 % 0x100;
            let b = v / 0x1_0000 % 0x100;
            let c = v / 0x100 % 0x100;
            let d = v % 0x100;
            &&& c * 0x100 + d == v % 0x1_0000
            &&& b * 0x1_0000 + c * 0x100 + d == v % 0x100_0000
            &&& a * 0x100_0000 + b * 0x1_0000 + c * 0x100 + d == v % 0x1_0000_0000
        }),
{
    assert(v / 0x100 == v / 0x1_0000 * 0x100 + v / 0x100 % 0x100);
    assert(v / 0x1_0000 == v / 0x100_0000 * 0x100 + v / 0x1_0000 % 0x100);
    assert(v / 0x100_0000 == v / 0x1_0000_0000 * 0x100 + v / 0x100_0000 % 0x100);
}

/// A machine's words go by its order: the two orders write the same bytes, one from the
/// last to the first, and each reads what it wrote.
pub proof fn orders_mirror_each_other(v: u64, s: Seq<u8>, i: int)
    requires
        0 <= i <= s.len() - 8,
    ensures
        ByteOrder::Big.word(s, i) == 256 * (256 * (256 * s[i] + s[i + 1]) + s[i + 2]) + s[i + 3],
        ByteOrder::Little.word(s, i) == 256 * (256 * (256 * s[i + 3] + s[i + 2]) + s[i + 1]) + s[i],
        ByteOrder::Big.quad(s, i) == ByteOrder::Big.word(s, i) * 0x1_0000_0000
            + ByteOrder::Big.word(s, i + 4),
        ByteOrder::Little.quad(s, i) == ByteOrder::Little.word(s, i + 4) * 0x1_0000_0000
            + ByteOrder::Little.word(s, i),
        ({
            let big = ByteOrder::Big.quad_bytes(v as int);
            let little = ByteOrder::Little.quad_bytes(v as int);
            &&& big.len() == 8
            &&& little.len() == 8
            &&& ByteOrder::Big.quad(big, 0) == v
            &&& ByteOrder::Little.quad(little, 0) == v
            &&& forall|j: int| 0 <= j < 8 ==> #[trigger] little[j] == big[7 - j]
        }),
        forall|j: int|
            0 <= j < 4 ==> #[trigger] ByteOrder::Little.word_bytes(v as int)[j]
                == ByteOrder::Big.word_bytes(v as int)[3 - j],
        ByteOrder::Little.word_bytes(v as int).len() == 4,
        ByteOrder::Big.word_bytes(v as int).len() == 4,
{
    lemma_words_read_back(v as int);
    lemma_quads_read_back(v as int);
}

} // verus!
