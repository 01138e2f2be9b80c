//! Stable opaque identity values (Runtime, Workspace, Tab, Pane, Execution,
//! Attachment, Projection, Block) and their process-unique generation.
//!
//! Fresh identities are drawn from an explicit [`IdSource`]: a per-process
//! namespace prefix plus a strictly increasing sequence. The low 64 bits of
//! every generated value are the sequence number, the high 64 bits the mixed
//! `(prefix, domain)` namespace.

use vstd::prelude::*;

use crate::text::{string_from_chars};

verus! {

/// Domain tag mixed into Runtime identities.
pub const RUNTIME_DOMAIN: u64 = 0x5255_4e54_494d_4501;
/// Domain tag mixed into Execution identities.
pub const EXECUTION_DOMAIN: u64 = 0x4558_4543_5554_4501;
/// Domain tag mixed into Attachment identities.
pub const ATTACHMENT_DOMAIN: u64 = 0x4154_5441_4348_0001;
/// Domain tag mixed into Block identities.
pub const BLOCK_DOMAIN: u64 = 0x424c_4f43_4b00_0001;
/// The fixed default Workspace identity.
pub const DEFAULT_WORKSPACE: u128 = 0x5345_5941_4c2d_4d30_3031_2d57_4f52_4b01;

/// The 64-bit finalizer used to spread namespace bits.
pub open spec fn spec_mix64(value: u64) -> u64 {
    let a = value ^ (value >> 30u64);
    let b = a.wrapping_mul(0xbf58_476d_1ce4_e5b9u64);
    let c = b ^ (b >> 27u64);
    let d = c.wrapping_mul(0x94d0_49bb_1331_11ebu64);
    d ^ (d >> 31u64)
}

/// The namespaced identity value for `(prefix, domain, sequence)`.
pub open spec fn spec_compose(process_prefix: u64, domain: u64, sequence: u64) -> u128 {
    ((spec_mix64(process_prefix ^ domain) as u128) << 64u128) | (sequence as u128)
}

/// The value whose little-endian bytes are `b`.
pub open spec fn le_value(b: [u8; 16]) -> u128 {
    (b[0] as u128) | ((b[1] as u128) << 8u128) | ((b[2] as u128) << 16u128) | ((b[3] as u128)
        << 24u128) | ((b[4] as u128) << 32u128) | ((b[5] as u128) << 40u128) | ((b[6] as u128)
        << 48u128) | ((b[7] as u128) << 56u128) | ((b[8] as u128) << 64u128) | ((b[9] as u128)
        << 72u128) | ((b[10] as u128) << 80u128) | ((b[11] as u128) << 88u128) | ((b[12] as u128)
        << 96u128) | ((b[13] as u128) << 104u128) | ((b[14] as u128) << 112u128) | ((b[15] as u128)
        << 120u128)
}

/// Lower-case hexadecimal digit for a nibble.
pub open spec fn hex_digit(d: u128) -> char {
    if d == 0 { '0' }
    else if d == 1 { '1' }
    else if d == 2 { '2' }
    else if d == 3 { '3' }
    else if d == 4 { '4' }
    else if d == 5 { '5' }
    else if d == 6 { '6' }
    else if d == 7 { '7' }
    else if d == 8 { '8' }
    else if d == 9 { '9' }
    else if d == 10 { 'a' }
    else if d == 11 { 'b' }
    else if d == 12 { 'c' }
    else if d == 13 { 'd' }
    else if d == 14 { 'e' }
    else { 'f' }
}

/// The 32-digit, zero-padded, lower-case hexadecimal rendering of `v`.
pub open spec fn hex32(v: u128) -> Seq<char> {
    Seq::new(32, |i: int| hex_digit((v >> ((4 * (31 - i)) as u128)) & 0xfu128))
}

/// Nibble `i` (0 the most significant) of `v`, as `hex32` renders it.
spec fn nib(v: u128, i: int) -> u128 {
    (v >> ((4 * (31 - i)) as u128)) & 0xfu128
}

proof fn lemma_nibble_bound(v: u128, s: u128)
    ensures
        (v >> s) & 0xfu128 < 16,
{
    assert((v >> s) & 0xfu128 < 16) by (bit_vector);
}

proof fn lemma_nibbles_determine(a: u128, b: u128)
    by (bit_vector)
    requires
        (a >> 0u128) & 0xfu128 == (b >> 0u128) & 0xfu128,
        (a >> 4u128) & 0xfu128 == (b >> 4u128) & 0xfu128,
        (a >> 8u128) & 0xfu128 == (b >> 8u128) & 0xfu128,
        (a >> 12u128) & 0xfu128 == (b >> 12u128) & 0xfu128,
        (a >> 16u128) & 0xfu128 == (b >> 16u128) & 0xfu128,
        (a >> 20u128) & 0xfu128 == (b >> 20u128) & 0xfu128,
        (a >> 24u128) & 0xfu128 == (b >> 24u128) & 0xfu128,
        (a >> 28u128) & 0xfu128 == (b >> 28u128) & 0xfu128,
        (a >> 32u128) & 0xfu128 == (b >> 32u128) & 0xfu128,
        (a >> 36u128) & 0xfu128 == (b >> 36u128) & 0xfu128,
        (a >> 40u128) & 0xfu128 == (b >> 40u128) & 0xfu128,
        (a >> 44u128) & 0xfu128 == (b >> 44u128) & 0xfu128,
        (a >> 48u128) & 0xfu128 == (b >> 48u128) & 0xfu128,
        (a >> 52u128) & 0xfu128 == (b >> 52u128) & 0xfu128,
        (a >> 56u128) & 0xfu128 == (b >> 56u128) & 0xfu128,
        (a >> 60u128) & 0xfu128 == (b >> 60u128) & 0xfu128,
        (a >> 64u128) & 0xfu128 == (b >> 64u128) & 0xfu128,
        (a >> 68u128) & 0xfu128 == (b >> 68u128) & 0xfu128,
        (a >> 72u128) & 0xfu128 == (b >> 72u128) & 0xfu128,
        (a >> 76u128) & 0xfu128 == (b >> 76u128) & 0xfu128,
        (a >> 80u128) & 0xfu128 == (b >> 80u128) & 0xfu128,
        (a >> 84u128) & 0xfu128 == (b >> 84u128) & 0xfu128,
        (a >> 88u128) & 0xfu128 == (b >> 88u128) & 0xfu128,
        (a >> 92u128) & 0xfu128 == (b >> 92u128) & 0xfu128,
        (a >> 96u128) & 0xfu128 == (b >> 96u128) & 0xfu128,
        (a >> 100u128) & 0xfu128 == (b >> 100u128) & 0xfu128,
        (a >> 104u128) & 0xfu128 == (b >> 104u128) & 0xfu128,
        (a >> 108u128) & 0xfu128 == (b >> 108u128) & 0xfu128,
        (a >> 112u128) & 0xfu128 == (b >> 112u128) & 0xfu128,
        (a >> 116u128) & 0xfu128 == (b >> 116u128) & 0xfu128,
        (a >> 120u128) & 0xfu128 == (b >> 120u128) & 0xfu128,
        (a >> 124u128) & 0xfu128 == (b >> 124u128) & 0xfu128,
    ensures
        a == b,
{
}

/// The rendering is injective: values with equal hexadecimal renderings are
/// equal, so distinct identities render as distinct strings.
pub proof fn lemma_hex32_injective(a: u128, b: u128)
    ensures
        hex32(a) == hex32(b) ==> a == b,
{
    if hex32(a) == hex32(b) {
        assert forall|i: int| 0 <= i < 32 implies nib(a, i) == nib(b, i) by {
            lemma_nibble_bound(a, (4 * (31 - i)) as u128);
            lemma_nibble_bound(b, (4 * (31 - i)) as u128);
            assert(hex32(a)[i] == hex32(b)[i]);
        }
        assert(nib(a, 0) == nib(b, 0));
        assert(nib(a, 1) == nib(b, 1));
        assert(nib(a, 2) == nib(b, 2));
        assert(nib(a, 3) == nib(b, 3));
        assert(nib(a, 4) == nib(b, 4));
        assert(nib(a, 5) == nib(b, 5));
        assert(nib(a, 6) == nib(b, 6));
        assert(nib(a, 7) == nib(b, 7));
        assert(nib(a, 8) == nib(b, 8));
        assert(nib(a, 9) == nib(b, 9));
        assert(nib(a, 10) == nib(b, 10));
        assert(nib(a, 11) == nib(b, 11));
        assert(nib(a, 12) == nib(b, 12));
        assert(nib(a, 13) == nib(b, 13));
        assert(nib(a, 14) == nib(b, 14));
        assert(nib(a, 15) == nib(b, 15));
        assert(nib(a, 16) == nib(b, 16));
        assert(nib(a, 17) == nib(b, 17));
        assert(nib(a, 18) == nib(b, 18));
        assert(nib(a, 19) == nib(b, 19));
        assert(nib(a, 20) == nib(b, 20));
        assert(nib(a, 21) == nib(b, 21));
        assert(nib(a, 22) == nib(b, 22));
        assert(nib(a, 23) == nib(b, 23));
        assert(nib(a, 24) == nib(b, 24));
        assert(nib(a, 25) == nib(b, 25));
        assert(nib(a, 26) == nib(b, 26));
        assert(nib(a, 27) == nib(b, 27));
        assert(nib(a, 28) == nib(b, 28));
        assert(nib(a, 29) == nib(b, 29));
        assert(nib(a, 30) == nib(b, 30));
        assert(nib(a, 31) == nib(b, 31));
        lemma_nibbles_determine(a, b);
    }
}

fn hex_digit_exec(d: u128) -> (c: char)
    requires
        d < 16,
    ensures
        c == hex_digit(d),
{
    if d == 0 { '0' }
    else if d == 1 { '1' }
    else if d == 2 { '2' }
    else if d == 3 { '3' }
    else if d == 4 { '4' }
    else if d == 5 { '5' }
    else if d == 6 { '6' }
    else if d == 7 { '7' }
    else if d == 8 { '8' }
    else if d == 9 { '9' }
    else if d == 10 { 'a' }
    else if d == 11 { 'b' }
    else if d == 12 { 'c' }
    else if d == 13 { 'd' }
    else if d == 14 { 'e' }
    else { 'f' }
}

fn hex32_string(v: u128) -> (r: String)
    ensures
        r@ == hex32(v),
{
    let mut out: Vec<char> = Vec::new();
    let mut i: u128 = 0;
    while i < 32
        invariant
            0 <= i <= 32,
            out@.len() == i,
            forall|j: int| 0 <= j < i ==> out@[j] == hex32(v)[j],
        decreases 32 - i,
    {
        let shift: u128 = 4 * (31 - i);
        let nibble: u128 = (v >> shift) & 0xf;
        assert(nibble < 16) by (bit_vector)
            requires nibble == (v >> shift) & 0xf;
        out.push(hex_digit_exec(nibble));
        i = i + 1;
    }
    assert(out@ =~= hex32(v));
    string_from_chars(out.as_slice())
}

/// `mix64`: spreads the bits of `value` (an avalanche finalizer).
pub fn mix64(value: u64) -> (r: u64)
    ensures
        r == spec_mix64(value),
{
    let a = value ^ (value >> 30);
    let b = a.wrapping_mul(0xbf58_476d_1ce4_e5b9);
    let c = b ^ (b >> 27);
    let d = c.wrapping_mul(0x94d0_49bb_1331_11eb);
    d ^ (d >> 31)
}

/// Compose a namespaced identity from a process prefix, a domain tag and a
/// sequence number. The sequence occupies the low 64 bits unchanged.
pub fn compose_unique_id(process_prefix: u64, domain: u64, sequence: u64) -> (r: u128)
    ensures
        r == spec_compose(process_prefix, domain, sequence),
        r as u64 == sequence,
        (r >> 64u128) as u64 == spec_mix64(process_prefix ^ domain),
{
    let namespace = mix64(process_prefix ^ domain);
    let r: u128 = ((namespace as u128) << 64) | sequence as u128;
    assert(r as u64 == sequence && (r >> 64u128) as u64 == namespace) by (bit_vector)
        requires r == ((namespace as u128) << 64u128) | (sequence as u128);
    r
}

/// Rotate `x` left by `k` bits (`0 < k < 64`).
pub open spec fn spec_rotl(x: u64, k: u64) -> u64 {
    (x << k) | (x >> (64 - k) as u64)
}

/// Derive the per-process namespace prefix from the wall-clock nanoseconds,
/// the process id and an address-derived value, as they were observed once
/// at process start.
pub fn process_prefix_from(nanos: u128, pid: u64, address: u64) -> (r: u64)
    ensures
        r == spec_mix64(
            (nanos as u64) ^ spec_rotl((nanos >> 64u128) as u64, 17) ^ spec_rotl(pid, 31) ^ address,
        ),
{
    let low = nanos as u64;
    let high = (nanos >> 64) as u64;
    let high_rot = (high << 17) | (high >> 47);
    let pid_rot = (pid << 31) | (pid >> 33);
    mix64(low ^ high_rot ^ pid_rot ^ address)
}

/// A process-unique identity namespace: a fixed prefix and the next sequence
/// number to hand out. Sequence numbers start at 1 and strictly increase.
#[derive(Debug)]
pub struct IdSource {
    prefix: u64,
    next: u64,
}

impl IdSource {
    /// The namespace prefix.
    pub closed spec fn spec_prefix(&self) -> u64 {
        self.prefix
    }

    /// The sequence number the next issue will use.
    pub closed spec fn spec_next(&self) -> u64 {
        self.next
    }

    /// A fresh source for the given process prefix; the first sequence is 1.
    pub fn new(process_prefix: u64) -> (r: Self)
        ensures
            r.spec_prefix() == process_prefix,
            r.spec_next() == 1,
    {
        IdSource { prefix: process_prefix, next: 1 }
    }

    /// The next sequence number that [`IdSource::issue`] will use.
    pub fn next_sequence(&self) -> (r: u64)
        ensures
            r == self.spec_next(),
    {
        self.next
    }

    /// Whether the sequence is exhausted (no further identity can be issued).
    pub fn is_exhausted(&self) -> (r: bool)
        ensures
            r == (self.spec_next() == u64::MAX),
    {
        self.next == u64::MAX
    }

    /// Issue one identity value in `domain`, consuming one sequence number.
    pub fn issue(&mut self, domain: u64) -> (r: u128)
        requires
            old(self).spec_next() < u64::MAX,
        ensures
            r == spec_compose(old(self).spec_prefix(), domain, old(self).spec_next()),
            r as u64 == old(self).spec_next(),
            final(self).spec_prefix() == old(self).spec_prefix(),
            final(self).spec_next() == old(self).spec_next() + 1,
    {
        let sequence = self.next;
        self.next = sequence + 1;
        compose_unique_id(self.prefix, domain, sequence)
    }
}

/// An issued identity carries its namespace in the high 64 bits (the mixed
/// process prefix and domain) and its sequence number in the low 64 bits.
pub proof fn issued_id_words(prefix: u64, domain: u64, s: u64)
    ensures
        (spec_compose(prefix, domain, s) >> 64u128) as u64 == spec_mix64(prefix ^ domain),
        spec_compose(prefix, domain, s) as u64 == s,
{
    let a = spec_compose(prefix, domain, s);
    let m = spec_mix64(prefix ^ domain);
    assert((a >> 64u128) as u64 == m && a as u64 == s) by (bit_vector)
        requires
            a == ((m as u128) << 64u128) | (s as u128);
}

/// Two identities issued one after another from the same source differ, in
/// any domains: their sequence numbers (the low 64 bits) differ, and so do
/// their hexadecimal renderings.
pub proof fn issued_ids_are_distinct(prefix: u64, d1: u64, d2: u64, s1: u64, s2: u64)
    requires
        s1 != s2,
    ensures
        spec_compose(prefix, d1, s1) != spec_compose(prefix, d2, s2),
        hex32(spec_compose(prefix, d1, s1)) != hex32(spec_compose(prefix, d2, s2)),
{
    lemma_hex32_injective(spec_compose(prefix, d1, s1), spec_compose(prefix, d2, s2));
    let a = spec_compose(prefix, d1, s1);
    let b = spec_compose(prefix, d2, s2);
    let m1 = spec_mix64(prefix ^ d1);
    let m2 = spec_mix64(prefix ^ d2);
    assert(a as u64 == s1 && b as u64 == s2) by (bit_vector)
        requires
            a == ((m1 as u128) << 64u128) | (s1 as u128),
            b == ((m2 as u128) << 64u128) | (s2 as u128);
}

/// Equal sequences under different namespace prefixes compose to different
/// identities whenever the mixed namespaces differ.
pub proof fn namespace_separates_equal_sequences(p1: u64, p2: u64, domain: u64, s: u64)
    requires
        spec_mix64(p1 ^ domain) != spec_mix64(p2 ^ domain),
    ensures
        spec_compose(p1, domain, s) != spec_compose(p2, domain, s),
{
    let a = spec_compose(p1, domain, s);
    let b = spec_compose(p2, domain, s);
    let m1 = spec_mix64(p1 ^ domain);
    let m2 = spec_mix64(p2 ^ domain);
    assert((a >> 64u128) as u64 == m1 && (b >> 64u128) as u64 == m2) by (bit_vector)
        requires
            a == ((m1 as u128) << 64u128) | (s as u128),
            b == ((m2 as u128) << 64u128) | (s as u128);
}

fn to_le(v: u128) -> (r: [u8; 16])
    ensures
        le_value(r) == v,
{
    let b0 = (v & 0xff) as u8;
    let b1 = ((v >> 8) & 0xff) as u8;
    let b2 = ((v >> 16) & 0xff) as u8;
    let b3 = ((v >> 24) & 0xff) as u8;
    let b4 = ((v >> 32) & 0xff) as u8;
    let b5 = ((v >> 40) & 0xff) as u8;
    let b6 = ((v >> 48) & 0xff) as u8;
    let b7 = ((v >> 56) & 0xff) as u8;
    let b8 = ((v >> 64) & 0xff) as u8;
    let b9 = ((v >> 72) & 0xff) as u8;
    let b10 = ((v >> 80) & 0xff) as u8;
    let b11 = ((v >> 88) & 0xff) as u8;
    let b12 = ((v >> 96) & 0xff) as u8;
    let b13 = ((v >> 104) & 0xff) as u8;
    let b14 = ((v >> 112) & 0xff) as u8;
    let b15 = ((v >> 120) & 0xff) as u8;
    let r: [u8; 16] = [b0, b1, b2, b3, b4, b5, b6, b7, b8, b9, b10, b11, b12, b13, b14, b15];
    assert((b0 as u128) | ((b1 as u128) << 8u128) | ((b2 as u128) << 16u128) | ((b3 as u128)
        << 24u128) | ((b4 as u128) << 32u128) | ((b5 as u128) << 40u128) | ((b6 as u128)
        << 48u128) | ((b7 as u128) << 56u128) | ((b8 as u128) << 64u128) | ((b9 as u128)
        << 72u128) | ((b10 as u128) << 80u128) | ((b11 as u128) << 88u128) | ((b12 as u128)
        << 96u128) | ((b13 as u128) << 104u128) | ((b14 as u128) << 112u128) | ((b15 as u128)
        << 120u128) == v) by (bit_vector)
        requires
            b0 == (v & 0xff) as u8,
            b1 == ((v >> 8) & 0xff) as u8,
            b2 == ((v >> 16) & 0xff) as u8,
            b3 == ((v >> 24) & 0xff) as u8,
            b4 == ((v >> 32) & 0xff) as u8,
            b5 == ((v >> 40) & 0xff) as u8,
            b6 == ((v >> 48) & 0xff) as u8,
            b7 == ((v >> 56) & 0xff) as u8,
            b8 == ((v >> 64) & 0xff) as u8,
            b9 == ((v >> 72) & 0xff) as u8,
            b10 == ((v >> 80) & 0xff) as u8,
            b11 == ((v >> 88) & 0xff) as u8,
            b12 == ((v >> 96) & 0xff) as u8,
            b13 == ((v >> 104) & 0xff) as u8,
            b14 == ((v >> 112) & 0xff) as u8,
            b15 == ((v >> 120) & 0xff) as u8,
    ;
    r
}

fn from_le(b: [u8; 16]) -> (r: u128)
    ensures
        r == le_value(b),
{
    (b[0] as u128) | ((b[1] as u128) << 8) | ((b[2] as u128) << 16) | ((b[3] as u128) << 24) | ((
    b[4] as u128) << 32) | ((b[5] as u128) << 40) | ((b[6] as u128) << 48) | ((b[7] as u128)
        << 56) | ((b[8] as u128) << 64) | ((b[9] as u128) << 72) | ((b[10] as u128) << 80) | ((
    b[11] as u128) << 88) | ((b[12] as u128) << 96) | ((b[13] as u128) << 104) | ((b[14] as u128)
        << 112) | ((b[15] as u128) << 120)
}

/// Two byte arrays with the same little-endian value agree at every position.
pub proof fn le_value_injective(a: [u8; 16], b: [u8; 16])
    requires
        le_value(a) == le_value(b),
    ensures
        forall|i: int| 0 <= i < 16 ==> #[trigger] a[i] == b[i],
{
    let (a0, a1, a2, a3, a4, a5, a6, a7) = (a[0], a[1], a[2], a[3], a[4], a[5], a[6], a[7]);
    let (a8, a9, a10, a11, a12, a13, a14, a15) = (a[8], a[9], a[10], a[11], a[12], a[13], a[14], a[15]);
    let (b0, b1, b2, b3, b4, b5, b6, b7) = (b[0], b[1], b[2], b[3], b[4], b[5], b[6], b[7]);
    let (b8, b9, b10, b11, b12, b13, b14, b15) = (b[8], b[9], b[10], b[11], b[12], b[13], b[14], b[15]);
    assert(a0 == b0 && a1 == b1 && a2 == b2 && a3 == b3 && a4 == b4 && a5 == b5 && a6 == b6 && a7
        == b7 && a8 == b8 && a9 == b9 && a10 == b10 && a11 == b11 && a12 == b12 && a13 == b13 && a14
        == b14 && a15 == b15) by (bit_vector)
        requires
            (a0 as u128) | ((a1 as u128) << 8u128) | ((a2 as u128) << 16u128) | ((a3 as u128)
                << 24u128) | ((a4 as u128) << 32u128) | ((a5 as u128) << 40u128) | ((a6 as u128)
                << 48u128) | ((a7 as u128) << 56u128) | ((a8 as u128) << 64u128) | ((a9 as u128)
                << 72u128) | ((a10 as u128) << 80u128) | ((a11 as u128) << 88u128) | ((a12
                as u128) << 96u128) | ((a13 as u128) << 104u128) | ((a14 as u128) << 112u128) | ((
            a15 as u128) << 120u128) == (b0 as u128) | ((b1 as u128) << 8u128) | ((b2 as u128)
                << 16u128) | ((b3 as u128) << 24u128) | ((b4 as u128) << 32u128) | ((b5 as u128)
                << 40u128) | ((b6 as u128) << 48u128) | ((b7 as u128) << 56u128) | ((b8 as u128)
                << 64u128) | ((b9 as u128) << 72u128) | ((b10 as u128) << 80u128) | ((b11
                as u128) << 88u128) | ((b12 as u128) << 96u128) | ((b13 as u128) << 104u128) | ((
            b14 as u128) << 112u128) | ((b15 as u128) << 120u128),
    ;
    assert forall|i: int| 0 <= i < 16 implies #[trigger] a[i] == b[i] by {
        if i == 0 {} else if i == 1 {} else if i == 2 {} else if i == 3 {}
        else if i == 4 {} else if i == 5 {} else if i == 6 {} else if i == 7 {}
        else if i == 8 {} else if i == 9 {} else if i == 10 {} else if i == 11 {}
        else if i == 12 {} else if i == 13 {} else if i == 14 {} else {}
    }
}

/// Opaque Runtime identity.
#[derive(Clone, Copy, Debug, PartialEq, Eq, Structural, Hash)]
pub struct RuntimeId(u128);

impl RuntimeId {
    /// The raw 128-bit identity value.
    pub closed spec fn value(self) -> u128 {
        self.0
    }

    /// The identity value is the whole identity: equal values, equal ids.
    pub proof fn lemma_value_determines(a: Self, b: Self)
        requires
            a.value() == b.value(),
        ensures
            a == b,
    {
    }

    /// The little-endian wire bytes of this identity.
    pub fn to_bytes(self) -> (r: [u8; 16])
        ensures
            le_value(r) == self.value(),
    {
        to_le(self.0)
    }

    /// The identity whose little-endian wire bytes are `bytes`.
    pub fn from_bytes(bytes: [u8; 16]) -> (r: Self)
        ensures
            r.value() == le_value(bytes),
    {
        RuntimeId(from_le(bytes))
    }

    /// The 32-digit lower-case hexadecimal rendering of the identity.
    pub fn to_hex_string(&self) -> (r: String)
        ensures
            r@ == hex32(self.value()),
    {
        hex32_string(self.0)
    }

    /// A fresh identity from `source` in the Runtime domain.
    pub fn new(source: &mut IdSource) -> (r: Self)
        requires
            old(source).spec_next() < u64::MAX,
        ensures
            r.value() == spec_compose(old(source).spec_prefix(), RUNTIME_DOMAIN, old(source).spec_next()),
            final(source).spec_prefix() == old(source).spec_prefix(),
            final(source).spec_next() == old(source).spec_next() + 1,
    {
        RuntimeId(source.issue(RUNTIME_DOMAIN))
    }
}

/// Opaque Workspace identity.
#[derive(Clone, Copy, Debug, PartialEq, Eq, Structural, Hash)]
pub struct WorkspaceId(u128);

impl WorkspaceId {
    /// The raw 128-bit identity value.
    pub closed spec fn value(self) -> u128 {
        self.0
    }

    /// The identity value is the whole identity: equal values, equal ids.
    pub proof fn lemma_value_determines(a: Self, b: Self)
        requires
            a.value() == b.value(),
        ensures
            a == b,
    {
    }

    /// The little-endian wire bytes of this identity.
    pub fn to_bytes(self) -> (r: [u8; 16])
        ensures
            le_value(r) == self.value(),
    {
        to_le(self.0)
    }

    /// The identity whose little-endian wire bytes are `bytes`.
    pub fn from_bytes(bytes: [u8; 16]) -> (r: Self)
        ensures
            r.value() == le_value(bytes),
    {
        WorkspaceId(from_le(bytes))
    }

    /// The 32-digit lower-case hexadecimal rendering of the identity.
    pub fn to_hex_string(&self) -> (r: String)
        ensures
            r@ == hex32(self.value()),
    {
        hex32_string(self.0)
    }

    /// The fixed default Workspace identity; independent of any Runtime.
    /// The identity with raw value `value`.
    pub(crate) fn from_raw(value: u128) -> (r: Self)
        ensures
            r.value() == value,
    {
        WorkspaceId(value)
    }

    pub fn m001_default() -> (r: Self)
        ensures
            r.value() == DEFAULT_WORKSPACE,
    {
        WorkspaceId(DEFAULT_WORKSPACE)
    }
}

/// Opaque Tab identity.
#[derive(Clone, Copy, Debug, PartialEq, Eq, Structural, Hash)]
pub struct TabId(u128);

impl TabId {
    /// The raw 128-bit identity value.
    pub closed spec fn value(self) -> u128 {
        self.0
    }

    /// The identity value is the whole identity: equal values, equal ids.
    pub proof fn lemma_value_determines(a: Self, b: Self)
        requires
            a.value() == b.value(),
        ensures
            a == b,
    {
    }

    /// The little-endian wire bytes of this identity.
    pub fn to_bytes(self) -> (r: [u8; 16])
        ensures
            le_value(r) == self.value(),
    {
        to_le(self.0)
    }

    /// The identity whose little-endian wire bytes are `bytes`.
    pub fn from_bytes(bytes: [u8; 16]) -> (r: Self)
        ensures
            r.value() == le_value(bytes),
    {
        TabId(from_le(bytes))
    }

    /// The identity with raw value `value`.
    pub(crate) fn from_raw(value: u128) -> (r: Self)
        ensures
            r.value() == value,
    {
        TabId(value)
    }

    /// The 32-digit lower-case hexadecimal rendering of the identity.
    pub fn to_hex_string(&self) -> (r: String)
        ensures
            r@ == hex32(self.value()),
    {
        hex32_string(self.0)
    }
}

/// Opaque Pane identity.
#[derive(Clone, Copy, Debug, PartialEq, Eq, Structural, Hash)]
pub struct PaneId(u128);

impl PaneId {
    /// The raw 128-bit identity value, for packing into host words.
    pub(crate) fn raw(self) -> (r: u128)
        ensures
            r == self.value(),
    {
        self.0
    }

    /// The raw 128-bit identity value.
    pub closed spec fn value(self) -> u128 {
        self.0
    }

    /// The identity value is the whole identity: equal values, equal ids.
    pub proof fn lemma_value_determines(a: Self, b: Self)
        requires
            a.value() == b.value(),
        ensures
            a == b,
    {
    }

    /// The little-endian wire bytes of this identity.
    pub fn to_bytes(self) -> (r: [u8; 16])
        ensures
            le_value(r) == self.value(),
    {
        to_le(self.0)
    }

    /// The identity whose little-endian wire bytes are `bytes`.
    pub fn from_bytes(bytes: [u8; 16]) -> (r: Self)
        ensures
            r.value() == le_value(bytes),
    {
        PaneId(from_le(bytes))
    }

    /// The identity with raw value `value`.
    pub(crate) fn from_raw(value: u128) -> (r: Self)
        ensures
            r.value() == value,
    {
        PaneId(value)
    }

    /// The 32-digit lower-case hexadecimal rendering of the identity.
    pub fn to_hex_string(&self) -> (r: String)
        ensures
            r@ == hex32(self.value()),
    {
        hex32_string(self.0)
    }
}

/// Opaque Execution identity.
#[derive(Clone, Copy, Debug, PartialEq, Eq, Structural, Hash, PartialOrd, Ord)]
pub struct ExecutionId(u128);

impl ExecutionId {
    /// The raw 128-bit identity value, for packing into host words.
    pub(crate) fn raw(self) -> (r: u128)
        ensures
            r == self.value(),
    {
        self.0
    }

    /// The raw 128-bit identity value.
    pub closed spec fn value(self) -> u128 {
        self.0
    }

    /// The identity value is the whole identity: equal values, equal ids.
    pub proof fn lemma_value_determines(a: Self, b: Self)
        requires
            a.value() == b.value(),
        ensures
            a == b,
    {
    }

    /// The little-endian wire bytes of this identity.
    pub fn to_bytes(self) -> (r: [u8; 16])
        ensures
            le_value(r) == self.value(),
    {
        to_le(self.0)
    }

    /// The identity whose little-endian wire bytes are `bytes`.
    pub fn from_bytes(bytes: [u8; 16]) -> (r: Self)
        ensures
            r.value() == le_value(bytes),
    {
        ExecutionId(from_le(bytes))
    }

    /// The 32-digit lower-case hexadecimal rendering of the identity.
    pub fn to_hex_string(&self) -> (r: String)
        ensures
            r@ == hex32(self.value()),
    {
        hex32_string(self.0)
    }

    /// A fresh identity from `source` in the Execution domain.
    pub fn new(source: &mut IdSource) -> (r: Self)
        requires
            old(source).spec_next() < u64::MAX,
        ensures
            r.value() == spec_compose(old(source).spec_prefix(), EXECUTION_DOMAIN, old(source).spec_next()),
            final(source).spec_prefix() == old(source).spec_prefix(),
            final(source).spec_next() == old(source).spec_next() + 1,
    {
        ExecutionId(source.issue(EXECUTION_DOMAIN))
    }
}

/// Opaque Attachment identity.
#[derive(Clone, Copy, Debug, PartialEq, Eq, Structural, Hash)]
pub struct AttachmentId(u128);

impl AttachmentId {
    /// The raw 128-bit identity value, for packing into host words.
    pub(crate) fn raw(self) -> (r: u128)
        ensures
            r == self.value(),
    {
        self.0
    }

    /// The raw 128-bit identity value.
    pub closed spec fn value(self) -> u128 {
        self.0
    }

    /// The identity value is the whole identity: equal values, equal ids.
    pub proof fn lemma_value_determines(a: Self, b: Self)
        requires
            a.value() == b.value(),
        ensures
            a == b,
    {
    }

    /// The little-endian wire bytes of this identity.
    pub fn to_bytes(self) -> (r: [u8; 16])
        ensures
            le_value(r) == self.value(),
    {
        to_le(self.0)
    }

    /// The identity whose little-endian wire bytes are `bytes`.
    pub fn from_bytes(bytes: [u8; 16]) -> (r: Self)
        ensures
            r.value() == le_value(bytes),
    {
        AttachmentId(from_le(bytes))
    }

    /// The 32-digit lower-case hexadecimal rendering of the identity.
    pub fn to_hex_string(&self) -> (r: String)
        ensures
            r@ == hex32(self.value()),
    {
        hex32_string(self.0)
    }

    /// A fresh identity from `source` in the Attachment domain.
    pub fn new(source: &mut IdSource) -> (r: Self)
        requires
            old(source).spec_next() < u64::MAX,
        ensures
            r.value() == spec_compose(old(source).spec_prefix(), ATTACHMENT_DOMAIN, old(source).spec_next()),
            final(source).spec_prefix() == old(source).spec_prefix(),
            final(source).spec_next() == old(source).spec_next() + 1,
    {
        AttachmentId(source.issue(ATTACHMENT_DOMAIN))
    }
}

/// Opaque Projection identity.
#[derive(Clone, Copy, Debug, PartialEq, Eq, Structural, Hash)]
pub struct ProjectionId(u128);

impl ProjectionId {
    /// The raw 128-bit identity value.
    pub closed spec fn value(self) -> u128 {
        self.0
    }

    /// The identity value is the whole identity: equal values, equal ids.
    pub proof fn lemma_value_determines(a: Self, b: Self)
        requires
            a.value() == b.value(),
        ensures
            a == b,
    {
    }

    /// The little-endian wire bytes of this identity.
    pub fn to_bytes(self) -> (r: [u8; 16])
        ensures
            le_value(r) == self.value(),
    {
        to_le(self.0)
    }

    /// The identity whose little-endian wire bytes are `bytes`.
    pub fn from_bytes(bytes: [u8; 16]) -> (r: Self)
        ensures
            r.value() == le_value(bytes),
    {
        ProjectionId(from_le(bytes))
    }

    /// The 32-digit lower-case hexadecimal rendering of the identity.
    pub fn to_hex_string(&self) -> (r: String)
        ensures
            r@ == hex32(self.value()),
    {
        hex32_string(self.0)
    }
}

/// The low and high 64-bit words of an identity value, as hosts receive
/// identities.
pub fn identity_words(value: u128) -> (r: (u64, u64))
    ensures
        r.0 == value as u64,
        r.1 == (value >> 64u128) as u64,
{
    (value as u64, (value >> 64u128) as u64)
}

/// Opaque Block identity.
#[derive(Clone, Copy, Debug, PartialEq, Eq, Structural, Hash, PartialOrd, Ord)]
pub struct BlockId(u128);

impl BlockId {
    /// The raw 128-bit identity value.
    pub closed spec fn value(self) -> u128 {
        self.0
    }

    /// The identity value is the whole identity: equal values, equal ids.
    pub proof fn lemma_value_determines(a: Self, b: Self)
        requires
            a.value() == b.value(),
        ensures
            a == b,
    {
    }

    /// The little-endian wire bytes of this identity.
    pub fn to_bytes(self) -> (r: [u8; 16])
        ensures
            le_value(r) == self.value(),
    {
        to_le(self.0)
    }

    /// The identity whose little-endian wire bytes are `bytes`.
    pub fn from_bytes(bytes: [u8; 16]) -> (r: Self)
        ensures
            r.value() == le_value(bytes),
    {
        BlockId(from_le(bytes))
    }

    /// The 32-digit lower-case hexadecimal rendering of the identity.
    pub fn to_hex_string(&self) -> (r: String)
        ensures
            r@ == hex32(self.value()),
    {
        hex32_string(self.0)
    }

    /// The low and high 64-bit words of the identity.
    pub fn words(self) -> (r: (u64, u64))
        ensures
            r.0 == self.value() as u64,
            r.1 == (self.value() >> 64u128) as u64,
    {
        identity_words(self.0)
    }

    /// A fresh identity from `source` in the Block domain.
    pub fn new(source: &mut IdSource) -> (r: Self)
        requires
            old(source).spec_next() < u64::MAX,
        ensures
            r.value() == spec_compose(old(source).spec_prefix(), BLOCK_DOMAIN, old(source).spec_next()),
            final(source).spec_prefix() == old(source).spec_prefix(),
            final(source).spec_next() == old(source).spec_next() + 1,
    {
        BlockId(source.issue(BLOCK_DOMAIN))
    }
}

} // verus!
