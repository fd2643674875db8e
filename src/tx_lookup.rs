//! Temporary storage of transaction-hash to transaction-number lookups.

use itertools::Itertools;
use std::path::PathBuf;
use vstd::prelude::*;

use crate::payload::B256;

verus! {

#[verifier::external_type_specification]
#[verifier::external_body]
pub struct ExPathBuf(PathBuf);

/// The temporary storage for transaction hash to lookup index, kept as
/// files in one directory.
#[derive(Debug)]
pub struct TxLookupStore {
    pub path: PathBuf,
}

impl TxLookupStore {
    /// Create new txlookup store at given path.
    pub fn new(path: PathBuf) -> (r: Self)
        ensures
            r.path == path,
    {
        TxLookupStore { path }
    }
}

/// The big-endian bytes of `n` without leading zero bytes; empty for zero.
pub open spec fn be_trimmed(n: nat) -> Seq<u8>
    decreases n,
{
    if n == 0 {
        Seq::empty()
    } else {
        be_trimmed(n / 256).push((n % 256) as u8)
    }
}

/// The number that big-endian bytes `s` stand for.
pub open spec fn be_value(s: Seq<u8>) -> nat
    decreases s.len(),
{
    if s.len() == 0 {
        0
    } else {
        be_value(s.drop_last()) * 256 + s.last() as nat
    }
}

/// 256 to the power `k`.
pub open spec fn pow256(k: nat) -> nat
    decreases k,
{
    if k == 0 {
        1
    } else {
        256 * pow256((k - 1) as nat)
    }
}

/// Reading back the trimmed bytes of a number gives the number, and a
/// number below `256^k` takes at most `k` bytes.
pub proof fn lemma_be_trimmed(n: nat, k: nat)
    requires
        n < pow256(k),
    ensures
        be_value(be_trimmed(n)) == n,
        be_trimmed(n).len() <= k,
    decreases n,
{
    if n != 0 {
        assert(k > 0);
        assert(n / 256 < pow256((k - 1) as nat));
        lemma_be_trimmed(n / 256, (k - 1) as nat);
        assert(be_trimmed(n).drop_last() == be_trimmed(n / 256));
    }
}

/// `k` big-endian bytes stand for a number below `256^k`.
pub proof fn lemma_be_value_bound(s: Seq<u8>)
    ensures
        be_value(s) < pow256(s.len()),
    decreases s.len(),
{
    if s.len() > 0 {
        lemma_be_value_bound(s.drop_last());
        assert(be_value(s.drop_last()) * 256 + (s.last() as nat) < pow256(s.len())) by (nonlinear_arith)
            requires
                be_value(s.drop_last()) < pow256((s.len() - 1) as nat),
                pow256(s.len()) == 256 * pow256((s.len() - 1) as nat),
                s.last() < 256;
    }
}

/// Appends the big-endian bytes of `n`, without leading zeros, to `buf`.
fn put_be_trimmed(n: u64, buf: &mut Vec<u8>)
    ensures
        final(buf)@ == old(buf)@ + be_trimmed(n as nat),
    decreases n,
{
    if n == 0 {
        return;
    }
    put_be_trimmed(n / 256, buf);
    buf.push((n % 256) as u8);
    proof {
        assert(be_trimmed(n as nat) == be_trimmed((n / 256) as nat).push((n % 256) as u8));
    }
}

/// The stored form of a lookup: the 32 hash bytes, then the number in its
/// compact form.
pub open spec fn compact_lookup(hash: B256, number: u64) -> Seq<u8> {
    hash@ + be_trimmed(number as nat)
}

/// Transaction number lookup by hash as it is saved in the database.
#[derive(Clone, Copy, Debug, PartialEq, Eq)]
pub struct TxNumberLookup {
    /// The transaction hash.
    pub hash: B256,
    /// The transaction number.
    pub number: u64,
}

impl TxNumberLookup {
    /// Appends the compact form to `buf` and returns its length: the full
    /// hash, then the number's big-endian bytes without leading zeros.
    pub fn to_compact(self, buf: &mut Vec<u8>) -> (r: usize)
        ensures
            final(buf)@ == old(buf)@ + compact_lookup(self.hash, self.number),
            r as nat == compact_lookup(self.hash, self.number).len(),
    {
        let mut i: usize = 0;
        while i < 32
            invariant
                0 <= i <= 32,
                buf@ == old(buf)@ + self.hash@.subrange(0, i as int),
            decreases 32 - i,
        {
            buf.push(self.hash[i]);
            i = i + 1;
            proof {
                assert(self.hash@.subrange(0, i as int) == self.hash@.subrange(0, i - 1).push(self.hash[i - 1]));
            }
        }
        assert(self.hash@.subrange(0, 32) == self.hash@);
        let start: usize = buf.len();
        put_be_trimmed(self.number, buf);
        proof {
            lemma_pow256_eight();
            lemma_be_trimmed(self.number as nat, 8);
        }
        32 + (buf.len() - start)
    }

    /// Reads a lookup from the first `len` bytes of `buf`, and returns it with
    /// the bytes after them.
    pub fn from_compact(buf: &[u8], len: usize) -> (r: (TxNumberLookup, Vec<u8>))
        requires
            32 <= len <= 40,
            len <= buf@.len(),
        ensures
            r.0.hash@ == buf@.subrange(0, 32),
            r.0.number as nat == be_value(buf@.subrange(32, len as int)),
            r.1@ == buf@.subrange(len as int, buf@.len() as int),
    {
        let mut hash: B256 = [0u8; 32];
        let mut i: usize = 0;
        while i < 32
            invariant
                0 <= i <= 32,
                32 <= buf@.len(),
                forall|j: int| 0 <= j < i ==> hash[j] == buf@[j],
            decreases 32 - i,
        {
            hash[i] = buf[i];
            i = i + 1;
        }
        assert(hash@ == buf@.subrange(0, 32));
        let mut number: u64 = 0;
        let mut k: usize = 32;
        while k < len
            invariant
                32 <= k <= len <= 40,
                len <= buf@.len(),
                number as nat == be_value(buf@.subrange(32, k as int)),
            decreases len - k,
        {
            proof {
                let s = buf@.subrange(32, k + 1);
                assert(s.drop_last() == buf@.subrange(32, k as int));
                lemma_be_value_bound(s);
                assert(pow256(s.len()) <= pow256(8)) by {
                    lemma_pow256_mono(s.len(), 8);
                }
                lemma_pow256_eight();
            }
            number = number * 256 + buf[k] as u64;
            k = k + 1;
        }
        let mut rest: Vec<u8> = Vec::new();
        let mut m: usize = len;
        while m < buf.len()
            invariant
                len <= m <= buf@.len(),
                rest@ == buf@.subrange(len as int, m as int),
            decreases buf@.len() - m,
        {
            rest.push(buf[m]);
            m = m + 1;
            proof {
                assert(buf@.subrange(len as int, m as int) == buf@.subrange(len as int, m - 1).push(buf@[m - 1]));
            }
        }
        (TxNumberLookup { hash, number }, rest)
    }
}

/// Eight bytes hold exactly the `u64` range.
proof fn lemma_pow256_eight()
    ensures
        pow256(8) == 0x1_0000_0000_0000_0000nat,
{
    reveal_with_fuel(pow256, 9);
}

/// Powers of 256 grow with the exponent.
proof fn lemma_pow256_mono(a: nat, b: nat)
    requires
        a <= b,
    ensures
        pow256(a) <= pow256(b),
    decreases b,
{
    if a < b {
        lemma_pow256_mono(a, (b - 1) as nat);
    }
}

/// Decoding the compact form of a lookup, followed by any bytes, gives the
/// lookup back together with those bytes.
pub proof fn lemma_compact_round_trip(x: TxNumberLookup, tail: Seq<u8>)
    ensures
        compact_lookup(x.hash, x.number).len() <= 40,
        (compact_lookup(x.hash, x.number) + tail).subrange(0, 32) == x.hash@,
        be_value((compact_lookup(x.hash, x.number) + tail).subrange(
            32,
            compact_lookup(x.hash, x.number).len() as int,
        )) == x.number as nat,
        (compact_lookup(x.hash, x.number) + tail).subrange(
            compact_lookup(x.hash, x.number).len() as int,
            (compact_lookup(x.hash, x.number) + tail).len() as int,
        ) == tail,
{
    lemma_pow256_eight();
    lemma_be_trimmed(x.number as nat, 8);
    let c = compact_lookup(x.hash, x.number);
    assert((c + tail).subrange(0, 32) == x.hash@);
    assert((c + tail).subrange(32, c.len() as int) == be_trimmed(x.number as nat));
    assert((c + tail).subrange(c.len() as int, (c + tail).len() as int) == tail);
}

/// Why a stored lookup line could not be read.
#[derive(Debug)]
pub enum TxLookupError {
    /// Reading or writing a lookup file failed, with the system's message.
    Io(String),
    /// The hash is not 32 bytes of hex, with an optional `0x` prefix.
    ParseHash,
    /// The number is not a decimal `u64`.
    ParseInt,
    /// The line does not split into a hash and a number at one space.
    LineSplit,
}

/// Whether `c` is an ASCII hex digit.
pub open spec fn is_hex_digit(c: u8) -> bool {
    (0x30 <= c <= 0x39) || (0x61 <= c <= 0x66) || (0x41 <= c <= 0x46)
}

/// The value of the hex digit `c`.
pub open spec fn hex_value(c: u8) -> nat {
    if 0x30 <= c <= 0x39 {
        (c - 0x30) as nat
    } else if 0x61 <= c <= 0x66 {
        (c - 0x61 + 10) as nat
    } else {
        (c - 0x41 + 10) as nat
    }
}

/// The lowercase hex digit for a value below 16.
pub open spec fn hex_char(v: nat) -> u8 {
    if v < 10 {
        (0x30 + v) as u8
    } else {
        (0x61 + v - 10) as u8
    }
}

/// The hex text without its `0x` or `0X` prefix, if it has one.
pub open spec fn strip_hex_prefix(s: Seq<u8>) -> Seq<u8> {
    if s.len() >= 2 && s[0] == 0x30 && (s[1] == 0x78 || s[1] == 0x58) {
        s.subrange(2, s.len() as int)
    } else {
        s
    }
}

/// Whether `s` is the hex text of 32 bytes: an even length, and 64 hex digits
/// after an optional prefix.
pub open spec fn is_hash_text(s: Seq<u8>) -> bool {
    &&& s.len() % 2 == 0
    &&& strip_hex_prefix(s).len() == 64
    &&& forall|i: int| 0 <= i < 64 ==> is_hex_digit(#[trigger] strip_hex_prefix(s)[i])
}

/// The 32 bytes that the hash text `s` stands for.
pub open spec fn hash_bytes_match(s: Seq<u8>, h: B256) -> bool {
    forall|i: int|
        0 <= i < 32 ==> h[i] as nat == hex_value(#[trigger] strip_hex_prefix(s)[2 * i]) * 16 + hex_value(
            strip_hex_prefix(s)[2 * i + 1],
        )
}

/// Whether `c` is an ASCII decimal digit.
pub open spec fn is_dec_digit(c: u8) -> bool {
    0x30 <= c <= 0x39
}

/// The number that the decimal digits `s` stand for.
pub open spec fn dec_value(s: Seq<u8>) -> nat
    decreases s.len(),
{
    if s.len() == 0 {
        0
    } else {
        dec_value(s.drop_last()) * 10 + (s.last() - 0x30) as nat
    }
}

/// The digits of a decimal number, without its optional leading `+`.
pub open spec fn unsigned_digits(s: Seq<u8>) -> Seq<u8> {
    if s.len() > 0 && s[0] == 0x2b {
        s.subrange(1, s.len() as int)
    } else {
        s
    }
}

/// Whether `s` is a decimal `u64`: an optional `+`, then at least one digit,
/// of value at most `u64::MAX`.
pub open spec fn is_u64_text(s: Seq<u8>) -> bool {
    &&& unsigned_digits(s).len() > 0
    &&& forall|i: int| 0 <= i < unsigned_digits(s).len() ==> is_dec_digit(#[trigger] unsigned_digits(s)[i])
    &&& dec_value(unsigned_digits(s)) <= u64::MAX
}

/// The decimal digits of `n`, without leading zeros; empty for zero.
pub open spec fn dec_digits(n: nat) -> Seq<u8>
    decreases n,
{
    if n == 0 {
        Seq::empty()
    } else {
        dec_digits(n / 10).push((0x30 + n % 10) as u8)
    }
}

/// The decimal text of `n`: `0` for zero.
pub open spec fn dec_text(n: nat) -> Seq<u8> {
    if n == 0 {
        seq![0x30u8]
    } else {
        dec_digits(n)
    }
}

/// The lowercase hex text of a hash, with its `0x` prefix.
pub open spec fn hash_text(h: B256) -> Seq<u8> {
    seq![0x30u8, 0x78u8] + Seq::new(64, |i: int| if i % 2 == 0 {
        hex_char(h[i / 2] as nat / 16)
    } else {
        hex_char(h[i / 2] as nat % 16)
    })
}

/// The stored line of a lookup: the hash's hex text, one space, the number.
pub open spec fn lookup_line(h: B256, n: u64) -> Seq<u8> {
    hash_text(h) + seq![0x20u8] + dec_text(n as nat)
}

/// The number of spaces in `s`.
pub open spec fn space_count(s: Seq<u8>) -> nat
    decreases s.len(),
{
    if s.len() == 0 {
        0
    } else {
        space_count(s.drop_last()) + if s.last() == 0x20 { 1nat } else { 0nat }
    }
}

/// Reads a hash from its hex text.
pub fn parse_hash(s: &[u8]) -> (r: Option<B256>)
    ensures
        r is Some <==> is_hash_text(s@),
        r matches Some(h) ==> hash_bytes_match(s@, h),
{
    if s.len() % 2 != 0 {
        return None;
    }
    let start: usize = if s.len() >= 2 && s[0] == 0x30 && (s[1] == 0x78 || s[1] == 0x58) { 2 } else { 0 };
    assert(strip_hex_prefix(s@) == s@.subrange(start as int, s@.len() as int));
    if s.len() - start != 64 {
        return None;
    }
    let mut h: B256 = [0u8; 32];
    let mut i: usize = 0;
    while i < 32
        invariant
            0 <= i <= 32,
            start <= 2,
            s@.len() == start + 64,
            strip_hex_prefix(s@) == s@.subrange(start as int, s@.len() as int),
            forall|j: int| 0 <= j < 2 * i ==> is_hex_digit(#[trigger] strip_hex_prefix(s@)[j]),
            forall|j: int|
                0 <= j < i ==> h[j] as nat == hex_value(#[trigger] strip_hex_prefix(s@)[2 * j]) * 16 + hex_value(
                    strip_hex_prefix(s@)[2 * j + 1],
                ),
        decreases 32 - i,
    {
        let hi = hex_digit_value(s[start + 2 * i]);
        let lo = hex_digit_value(s[start + 2 * i + 1]);
        match (hi, lo) {
            (Some(a), Some(b)) => {
                h[i] = a * 16 + b;
            },
            _ => {
                proof {
                    assert(!is_hex_digit(strip_hex_prefix(s@)[2 * i]) || !is_hex_digit(
                        strip_hex_prefix(s@)[2 * i + 1],
                    ));
                }
                return None;
            },
        }
        i = i + 1;
    }
    Some(h)
}

/// The value of one hex digit, if `c` is one.
fn hex_digit_value(c: u8) -> (r: Option<u8>)
    ensures
        r is Some <==> is_hex_digit(c),
        r matches Some(v) ==> v as nat == hex_value(c) && v < 16,
{
    if 0x30 <= c && c <= 0x39 {
        Some(c - 0x30)
    } else if 0x61 <= c && c <= 0x66 {
        Some(c - 0x61 + 10)
    } else if 0x41 <= c && c <= 0x46 {
        Some(c - 0x41 + 10)
    } else {
        None
    }
}

/// Reads a decimal `u64`, with an optional leading `+`.
pub fn parse_u64(s: &[u8]) -> (r: Option<u64>)
    ensures
        r is Some <==> is_u64_text(s@),
        r matches Some(v) ==> v as nat == dec_value(unsigned_digits(s@)),
{
    let start: usize = if s.len() > 0 && s[0] == 0x2b { 1 } else { 0 };
    assert(unsigned_digits(s@) == s@.subrange(start as int, s@.len() as int));
    if s.len() == start {
        return None;
    }
    let mut d: usize = start;
    while d < s.len()
        invariant
            start <= d <= s@.len(),
            unsigned_digits(s@) == s@.subrange(start as int, s@.len() as int),
            forall|j: int| 0 <= j < d - start ==> is_dec_digit(#[trigger] unsigned_digits(s@)[j]),
        decreases s@.len() - d,
    {
        if s[d] < 0x30 || s[d] > 0x39 {
            assert(!is_dec_digit(unsigned_digits(s@)[d - start]));
            return None;
        }
        d = d + 1;
    }
    let ghost digits = unsigned_digits(s@);
    let mut v: u64 = 0;
    let mut k: usize = start;
    while k < s.len()
        invariant
            start <= k <= s@.len(),
            digits == s@.subrange(start as int, s@.len() as int),
            digits == unsigned_digits(s@),
            forall|j: int| 0 <= j < digits.len() ==> is_dec_digit(#[trigger] digits[j]),
            v as nat == dec_value(digits.subrange(0, k - start)),
        decreases s@.len() - k,
    {
        let c = s[k];
        assert(c == digits[k - start]);
        proof {
            assert(digits.subrange(0, k + 1 - start).drop_last() == digits.subrange(0, k - start));
        }
        let dv: u64 = (c - 0x30) as u64;
        if v > (u64::MAX - dv) / 10 {
            proof {
                assert(v as nat * 10 + dv as nat > u64::MAX) by (nonlinear_arith)
                    requires
                        v > (u64::MAX - dv) / 10,
                        dv <= 9;
                let pre = digits.subrange(0, k + 1 - start);
                assert(pre.last() == c);
                assert(dec_value(pre) == dec_value(pre.drop_last()) * 10 + (pre.last() - 0x30) as nat);
                lemma_dec_value_grows(digits, k + 1 - start);
                assert(dec_value(digits) > u64::MAX);
            }
            return None;
        }
        v = v * 10 + dv;
        k = k + 1;
    }
    assert(digits.subrange(0, digits.len() as int) == digits);
    Some(v)
}

/// Whether `s` holds no space.
pub open spec fn no_space(s: Seq<u8>) -> bool {
    forall|i: int| 0 <= i < s.len() ==> #[trigger] s[i] != 0x20
}

/// Whether the only space of `s` stands at `p`.
pub open spec fn split_at_space(s: Seq<u8>, p: int) -> bool {
    &&& 0 <= p < s.len()
    &&& s[p] == 0x20
    &&& no_space(s.subrange(0, p))
    &&& no_space(s.subrange(p + 1, s.len() as int))
}

/// Whether `c` is a space.
fn is_space(c: &u8) -> (r: bool)
    ensures
        r == (*c == 0x20),
{
    *c == 0x20
}

/// Relies on `<[u8]>::split` at spaces and `Itertools::collect_tuple`: the two
/// parts around the line's space when it has exactly one, else `None`.
#[verifier::external_body]
fn split_one_space(line: &[u8]) -> (r: Option<(Vec<u8>, Vec<u8>)>)
    ensures
        r is None <==> !(exists|p: int| split_at_space(line@, p)),
        r matches Some((a, b)) ==> exists|p: int|
            split_at_space(line@, p) && a@ == line@.subrange(0, p) && b@ == line@.subrange(p + 1, line@.len() as int),
{
    line.split(is_space).collect_tuple().map(|(a, b): (&[u8], &[u8])| (a.to_vec(), b.to_vec()))
}

/// A line has at most one place where its only space stands.
proof fn lemma_space_unique(s: Seq<u8>, p: int, q: int)
    requires
        split_at_space(s, p),
        split_at_space(s, q),
    ensures
        p == q,
{
    if p < q {
        assert(s.subrange(p + 1, s.len() as int)[q - p - 1] == s[q]);
    } else if q < p {
        assert(s.subrange(q + 1, s.len() as int)[p - q - 1] == s[p]);
    }
}

/// Reads one stored lookup line: a hash, one space, a number. A line without
/// exactly one space fails with `LineSplit`; then the hash is read, then the
/// number.
pub fn parse_lookup_line(line: &[u8]) -> (r: Result<(B256, u64), TxLookupError>)
    ensures
        (r matches Err(TxLookupError::LineSplit)) <==> !(exists|p: int| split_at_space(line@, p)),
        r matches Err(TxLookupError::Io(_)) ==> false,
        forall|p: int|
            split_at_space(line@, p) ==> {
                let a = line@.subrange(0, p);
                let b = line@.subrange(p + 1, line@.len() as int);
                &&& (r matches Err(TxLookupError::ParseHash)) <==> !is_hash_text(a)
                &&& (r matches Err(TxLookupError::ParseInt)) <==> is_hash_text(a) && !is_u64_text(b)
                &&& r matches Ok((h, n)) ==> hash_bytes_match(a, h) && n as nat == dec_value(unsigned_digits(b))
            },
{
    let (a, b) = match split_one_space(line) {
        Some(parts) => parts,
        None => return Err(TxLookupError::LineSplit),
    };
    proof {
        assert forall|x: int| split_at_space(line@, x) implies a@ == line@.subrange(0, x) && b@ == line@.subrange(
            x + 1,
            line@.len() as int,
        ) by {
            let p = choose|p: int| split_at_space(line@, p) && a@ == line@.subrange(0, p) && b@ == line@.subrange(
                p + 1,
                line@.len() as int,
            );
            lemma_space_unique(line@, p, x);
        }
    }
    let a = a.as_slice();
    let b = b.as_slice();
    let hash = match parse_hash(a) {
        Some(h) => h,
        None => return Err(TxLookupError::ParseHash),
    };
    let number = match parse_u64(b) {
        Some(n) => n,
        None => return Err(TxLookupError::ParseInt),
    };
    Ok((hash, number))
}

/// Appends the decimal digits of `n`, without leading zeros, to `buf`.
fn put_dec_digits(n: u64, buf: &mut Vec<u8>)
    ensures
        final(buf)@ == old(buf)@ + dec_digits(n as nat),
    decreases n,
{
    if n == 0 {
        return;
    }
    put_dec_digits(n / 10, buf);
    buf.push((0x30 + n % 10) as u8);
}

/// The lowercase hex digit for a value below 16.
fn hex_digit_char(v: u8) -> (r: u8)
    requires
        v < 16,
    ensures
        r == hex_char(v as nat),
{
    if v < 10 {
        0x30 + v
    } else {
        0x61 + v - 10
    }
}

/// Writes the stored line of a lookup: the hash in lowercase hex with a `0x`
/// prefix, one space, and the number in decimal.
pub fn format_lookup_line(hash: &B256, number: u64, buf: &mut Vec<u8>)
    ensures
        final(buf)@ == old(buf)@ + lookup_line(*hash, number),
{
    let ghost start = buf@;
    buf.push(0x30);
    buf.push(0x78);
    let ghost text = hash_text(*hash);
    let mut i: usize = 0;
    while i < 32
        invariant
            0 <= i <= 32,
            text == hash_text(*hash),
            buf@ == start + text.subrange(0, 2 + 2 * i),
        decreases 32 - i,
    {
        let byte = hash[i];
        buf.push(hex_digit_char(byte / 16));
        buf.push(hex_digit_char(byte % 16));
        proof {
            assert(text.subrange(0, 2 + 2 * (i + 1)) == text.subrange(0, 2 + 2 * i).push(text[2 + 2 * i]).push(
                text[3 + 2 * i],
            ));
        }
        i = i + 1;
    }
    assert(text.subrange(0, 66) == text);
    buf.push(0x20);
    if number == 0 {
        buf.push(0x30);
    } else {
        put_dec_digits(number, buf);
    }
    assert(buf@ == start + lookup_line(*hash, number));
}

/// Lines joined by newlines, in order.
pub open spec fn joined_lines(lines: Seq<Seq<u8>>) -> Seq<u8>
    decreases lines.len(),
{
    if lines.len() == 0 {
        Seq::empty()
    } else if lines.len() == 1 {
        lines[0]
    } else {
        joined_lines(lines.drop_last()) + seq![0x0au8] + lines.last()
    }
}

/// The stored file of a lookup index: one line per entry, joined by newlines.
pub open spec fn lookup_file(index: Seq<(B256, u64)>) -> Seq<u8> {
    joined_lines(index.map_values(|e: (B256, u64)| lookup_line(e.0, e.1)))
}

/// Relies on `Itertools::intersperse` and `Iterator::flatten`: the lines in
/// order, with one newline between each two.
#[verifier::external_body]
fn join_lines(lines: Vec<Vec<u8>>) -> (r: Vec<u8>)
    ensures
        r@ == joined_lines(lines@.map_values(|l: Vec<u8>| l@)),
{
    Itertools::intersperse(lines.into_iter(), vec![0x0a]).flatten().collect()
}

/// Writes a lookup index as stored: one line per entry, in the given order,
/// joined by newlines.
pub fn format_lookup_file(index: &Vec<(B256, u64)>) -> (r: Vec<u8>)
    ensures
        r@ == lookup_file(index@),
{
    let mut lines: Vec<Vec<u8>> = Vec::new();
    let mut i: usize = 0;
    while i < index.len()
        invariant
            0 <= i <= index@.len(),
            lines@.map_values(|l: Vec<u8>| l@) == index@.subrange(0, i as int).map_values(
                |e: (B256, u64)| lookup_line(e.0, e.1),
            ),
        decreases index@.len() - i,
    {
        let (h, n) = index[i];
        let mut line: Vec<u8> = Vec::new();
        format_lookup_line(&h, n, &mut line);
        let ghost before = lines@;
        lines.push(line);
        proof {
            assert(lines@.map_values(|l: Vec<u8>| l@) =~= before.map_values(|l: Vec<u8>| l@).push(line@));
            assert(index@.subrange(0, i + 1).map_values(|e: (B256, u64)| lookup_line(e.0, e.1))
                =~= index@.subrange(0, i as int).map_values(|e: (B256, u64)| lookup_line(e.0, e.1)).push(
                lookup_line(h, n),
            ));
        }
        i = i + 1;
    }
    assert(index@.subrange(0, index@.len() as int) == index@);
    join_lines(lines)
}

/// The hex digit of a value below 16 reads back as that value.
proof fn lemma_hex_char(v: nat)
    requires
        v < 16,
    ensures
        is_hex_digit(hex_char(v)),
        hex_value(hex_char(v)) == v,
        hex_char(v) != 0x20,
{
}

/// The decimal digits of a number are digits, read back as the number, and
/// hold no space.
proof fn lemma_dec_digits(n: nat)
    ensures
        forall|i: int| 0 <= i < dec_digits(n).len() ==> is_dec_digit(#[trigger] dec_digits(n)[i]),
        dec_value(dec_digits(n)) == n,
        n > 0 ==> dec_digits(n).len() > 0,
    decreases n,
{
    if n > 0 {
        lemma_dec_digits(n / 10);
        assert(dec_digits(n).drop_last() == dec_digits(n / 10));
    }
}

/// Reading back the stored line of a lookup gives the lookup: the line
/// splits at its one space, its hash text stands for the hash, and its
/// number text for the number.
pub proof fn lemma_lookup_line_round_trip(h: B256, n: u64)
    ensures
        split_at_space(lookup_line(h, n), 66),
        is_hash_text(lookup_line(h, n).subrange(0, 66)),
        hash_bytes_match(lookup_line(h, n).subrange(0, 66), h),
        forall|h2: B256| #[trigger] hash_bytes_match(lookup_line(h, n).subrange(0, 66), h2) ==> h2@ == h@,
        is_u64_text(lookup_line(h, n).subrange(67, lookup_line(h, n).len() as int)),
        dec_value(unsigned_digits(lookup_line(h, n).subrange(67, lookup_line(h, n).len() as int))) == n as nat,
{
    let line = lookup_line(h, n);
    let a = line.subrange(0, 66);
    let b = line.subrange(67, line.len() as int);
    let t = hash_text(h);
    assert(a == t);
    assert(b == dec_text(n as nat));
    assert(strip_hex_prefix(t) == t.subrange(2, 66));
    assert forall|i: int| 0 <= i < 64 implies is_hex_digit(#[trigger] strip_hex_prefix(a)[i]) && strip_hex_prefix(a)[i] != 0x20 by {
        lemma_hex_char(h[i / 2] as nat / 16);
        lemma_hex_char(h[i / 2] as nat % 16);
    }
    assert forall|i: int| 0 <= i < 32 implies h[i] as nat == hex_value(#[trigger] strip_hex_prefix(a)[2 * i]) * 16
        + hex_value(strip_hex_prefix(a)[2 * i + 1]) by {
        lemma_hex_char(h[i] as nat / 16);
        lemma_hex_char(h[i] as nat % 16);
        assert((2 * i) / 2 == i);
        assert((2 * i + 1) / 2 == i);
    }
    assert forall|i: int| 0 <= i < 66 implies #[trigger] a[i] != 0x20 by {
        if i >= 2 {
            assert(a[i] == strip_hex_prefix(a)[i - 2]);
        }
    }
    lemma_dec_digits(n as nat);
    if n == 0 {
        assert(unsigned_digits(b) == b);
        assert(dec_value(b) == dec_value(b.drop_last()) * 10 + (b.last() - 0x30) as nat);
        assert(b.drop_last() =~= Seq::<u8>::empty());
    } else {
        assert(b == dec_digits(n as nat));
        assert(is_dec_digit(b[0]));
        assert(unsigned_digits(b) == b);
    }
    assert forall|i: int| 0 <= i < b.len() implies #[trigger] b[i] != 0x20 by {
        assert(is_dec_digit(unsigned_digits(b)[i]));
    }
    assert(line.subrange(0, 66) == a);
    assert(line.subrange(67, line.len() as int) == b);
    assert forall|h2: B256| #[trigger] hash_bytes_match(a, h2) implies h2@ == h@ by {
        assert forall|i: int| 0 <= i < 32 implies h2@[i] == h@[i] by {
            assert(h2[i] as nat == hex_value(strip_hex_prefix(a)[2 * i]) * 16 + hex_value(strip_hex_prefix(a)[2 * i + 1]));
            assert(h[i] as nat == hex_value(strip_hex_prefix(a)[2 * i]) * 16 + hex_value(strip_hex_prefix(a)[2 * i + 1]));
        }
        assert(h2@ =~= h@);
    }
}

/// Whether hash `a` sorts before hash `b`: at the first byte where they
/// differ, `a` has the smaller one.
pub open spec fn hash_lt(a: B256, b: B256) -> bool {
    exists|k: int| 0 <= k < 32 && #[trigger] a@[k] < b@[k] && a@.subrange(0, k) == b@.subrange(0, k)
}

/// Sorting before is transitive and never holds both ways.
proof fn lemma_hash_lt_order(a: B256, b: B256, c: B256)
    ensures
        hash_lt(a, b) && hash_lt(b, c) ==> hash_lt(a, c),
        !(hash_lt(a, b) && hash_lt(b, a)),
        !hash_lt(a, a),
{
    if hash_lt(a, b) {
        let k1 = choose|k: int| 0 <= k < 32 && #[trigger] a@[k] < b@[k] && a@.subrange(0, k) == b@.subrange(0, k);
        if hash_lt(b, c) {
            let k2 = choose|k: int| 0 <= k < 32 && #[trigger] b@[k] < c@[k] && b@.subrange(0, k) == c@.subrange(0, k);
            let k = if k1 < k2 { k1 } else { k2 };
            assert(a@.subrange(0, k) == c@.subrange(0, k)) by {
                assert(a@.subrange(0, k) == a@.subrange(0, k1).subrange(0, k));
                assert(c@.subrange(0, k) == c@.subrange(0, k2).subrange(0, k));
                assert(b@.subrange(0, k) == b@.subrange(0, k1).subrange(0, k));
                assert(b@.subrange(0, k) == b@.subrange(0, k2).subrange(0, k));
            }
            if k1 < k2 {
                assert(b@[k1] == c@[k1]) by {
                    assert(b@.subrange(0, k2)[k1] == c@.subrange(0, k2)[k1]);
                }
            } else if k2 < k1 {
                assert(a@[k2] == b@[k2]) by {
                    assert(a@.subrange(0, k1)[k2] == b@.subrange(0, k1)[k2]);
                }
            }
            assert(a@[k] < c@[k]);
        }
        if hash_lt(b, a) {
            let k2 = choose|k: int| 0 <= k < 32 && #[trigger] b@[k] < a@[k] && b@.subrange(0, k) == a@.subrange(0, k);
            if k1 < k2 {
                assert(b@.subrange(0, k2)[k1] == a@.subrange(0, k2)[k1]);
            } else if k2 < k1 {
                assert(a@.subrange(0, k1)[k2] == b@.subrange(0, k1)[k2]);
            }
        }
    }
}

/// Compares two hashes byte by byte: negative when `a` sorts first, zero
/// when they are equal, positive when `b` sorts first.
pub fn compare_hashes(a: &B256, b: &B256) -> (r: i8)
    ensures
        r < 0 <==> hash_lt(*a, *b),
        r == 0 <==> a@ == b@,
        r > 0 <==> hash_lt(*b, *a),
{
    let mut i: usize = 0;
    while i < 32
        invariant
            0 <= i <= 32,
            a@.len() == 32,
            b@.len() == 32,
            a@.subrange(0, i as int) == b@.subrange(0, i as int),
        decreases 32 - i,
    {
        if a[i] != b[i] {
            proof {
                lemma_hash_lt_order(*a, *b, *a);
                if a[i as int] < b[i as int] {
                    assert(hash_lt(*a, *b));
                } else {
                    assert(hash_lt(*b, *a));
                }
                assert(a@[i as int] != b@[i as int]);
            }
            return if a[i] < b[i] { -1 } else { 1 };
        }
        proof {
            assert(a@.subrange(0, i + 1) == a@.subrange(0, i as int).push(a@[i as int]));
            assert(b@.subrange(0, i + 1) == b@.subrange(0, i as int).push(b@[i as int]));
        }
        i = i + 1;
    }
    proof {
        assert(a@.subrange(0, 32) == a@);
        assert(b@.subrange(0, 32) == b@);
        lemma_hash_lt_order(*a, *b, *a);
        lemma_hash_lt_order(*b, *a, *b);
    }
    0
}

/// The current entry of one lookup file being merged: its hash, its number,
/// and which file it came from.
#[derive(Clone, Copy, Debug, PartialEq, Eq)]
pub struct CursorHead {
    pub hash: B256,
    pub number: u64,
    pub source: usize,
}

/// Merges sorted lookup files into one sorted stream: it holds the current
/// entry of each file still open, at most one per hash, and yields the one
/// with the smallest hash first.
#[derive(Debug)]
pub struct TxLookupIter {
    pub heads: Vec<CursorHead>,
    /// The files that have been read to the end.
    pub drained: Vec<usize>,
}

impl TxLookupIter {
    /// No two held entries share a hash.
    pub open spec fn wf(&self) -> bool {
        forall|i: int, j: int|
            0 <= i < j < self.heads@.len() ==> #[trigger] self.heads@[i].hash@ != #[trigger] self.heads@[j].hash@
    }

    /// A merge with no files.
    pub fn new() -> (r: Self)
        ensures
            r.wf(),
            r.heads@.len() == 0,
            r.drained@.len() == 0,
    {
        TxLookupIter { heads: Vec::new(), drained: Vec::new() }
    }

    /// Adds the current entry of a file. An entry whose hash is already held
    /// is not added, and `false` is returned.
    pub fn add_cursor(&mut self, head: CursorHead) -> (r: bool)
        requires
            old(self).wf(),
        ensures
            final(self).wf(),
            final(self).drained == old(self).drained,
            r == (forall|i: int| 0 <= i < old(self).heads@.len() ==> old(self).heads@[i].hash@ != head.hash@),
            r ==> final(self).heads@ == old(self).heads@.push(head),
            !r ==> final(self).heads@ == old(self).heads@,
    {
        let mut i: usize = 0;
        while i < self.heads.len()
            invariant
                0 <= i <= self.heads@.len(),
                *self == *old(self),
                self.wf(),
                forall|j: int| 0 <= j < i ==> self.heads@[j].hash@ != head.hash@,
            decreases self.heads@.len() - i,
        {
            if compare_hashes(&self.heads[i].hash, &head.hash) == 0 {
                return false;
            }
            i = i + 1;
        }
        self.heads.push(head);
        true
    }

    /// Takes out the held entry with the smallest hash, if any.
    pub fn pop_first(&mut self) -> (r: Option<CursorHead>)
        requires
            old(self).wf(),
        ensures
            final(self).wf(),
            final(self).drained == old(self).drained,
            r is None <==> old(self).heads@.len() == 0,
            r matches Some(h) ==> exists|m: int| {
                &&& 0 <= m < old(self).heads@.len()
                &&& old(self).heads@[m] == h
                &&& final(self).heads@ == old(self).heads@.remove(m)
                &&& forall|j: int| 0 <= j < old(self).heads@.len() ==> !hash_lt(#[trigger] old(self).heads@[j].hash, h.hash)
            },
    {
        if self.heads.len() == 0 {
            return None;
        }
        let mut m: usize = 0;
        let mut i: usize = 1;
        while i < self.heads.len()
            invariant
                0 <= m < i <= self.heads@.len(),
                forall|j: int| 0 <= j < i ==> !hash_lt(#[trigger] self.heads@[j].hash, self.heads@[m as int].hash),
            decreases self.heads@.len() - i,
        {
            if compare_hashes(&self.heads[i].hash, &self.heads[m].hash) < 0 {
                proof {
                    assert forall|j: int| 0 <= j <= i implies !hash_lt(#[trigger] self.heads@[j].hash, self.heads@[i as int].hash) by {
                        lemma_hash_lt_order(self.heads@[j].hash, self.heads@[i as int].hash, self.heads@[m as int].hash);
                    }
                }
                m = i;
            }
            i = i + 1;
        }
        let ghost before = self.heads@;
        let h = self.heads.remove(m);
        proof {
            assert forall|i: int, j: int|
                0 <= i < j < self.heads@.len() implies #[trigger] self.heads@[i].hash@ != #[trigger] self.heads@[j].hash@ by {
                let bi = if i < m { i } else { i + 1 };
                let bj = if j < m { j } else { j + 1 };
                assert(self.heads@[i] == before[bi]);
                assert(self.heads@[j] == before[bj]);
            }
        }
        Some(h)
    }

    /// Completes one step of the merge. `popped` was taken by `pop_first`,
    /// and `advanced` is what its file gave next: another entry, which is
    /// held in its place; the end of the file, which is recorded; or an
    /// error, which is returned in place of the popped entry.
    pub fn settle_advance(
        &mut self,
        popped: CursorHead,
        advanced: Result<Option<(B256, u64)>, TxLookupError>,
    ) -> (r: Result<(B256, u64), TxLookupError>)
        requires
            old(self).wf(),
        ensures
            final(self).wf(),
            match advanced {
                Ok(Some((h, n))) => {
                    &&& r == Ok::<(B256, u64), TxLookupError>((popped.hash, popped.number))
                    &&& final(self).drained == old(self).drained
                    &&& (final(self).heads@ == old(self).heads@.push(CursorHead { hash: h, number: n, source: popped.source })
                        || final(self).heads@ == old(self).heads@)
                },
                Ok(None) => {
                    &&& r == Ok::<(B256, u64), TxLookupError>((popped.hash, popped.number))
                    &&& final(self).heads == old(self).heads
                    &&& final(self).drained@ == old(self).drained@.push(popped.source)
                },
                Err(e) => r == Err::<(B256, u64), TxLookupError>(e) && *final(self) == *old(self),
            },
    {
        match advanced {
            Ok(Some((hash, number))) => {
                self.add_cursor(CursorHead { hash, number, source: popped.source });
                Ok((popped.hash, popped.number))
            },
            Ok(None) => {
                self.mark_drained(popped.source);
                Ok((popped.hash, popped.number))
            },
            Err(e) => Err(e),
        }
    }

    /// Records that the file `source` has been read to the end.
    pub fn mark_drained(&mut self, source: usize)
        ensures
            final(self).heads == old(self).heads,
            final(self).drained@ == old(self).drained@.push(source),
    {
        self.drained.push(source);
    }
}

/// A longer prefix of decimal digits never stands for a smaller number.
proof fn lemma_dec_value_grows(s: Seq<u8>, k: int)
    requires
        0 <= k <= s.len(),
        forall|i: int| 0 <= i < s.len() ==> is_dec_digit(#[trigger] s[i]),
    ensures
        dec_value(s.subrange(0, k)) <= dec_value(s),
    decreases s.len() - k,
{
    if k < s.len() {
        lemma_dec_value_grows(s, k + 1);
        assert(s.subrange(0, k + 1).drop_last() == s.subrange(0, k));
        assert(dec_value(s.subrange(0, k + 1)) == dec_value(s.subrange(0, k)) * 10 + (s[k] - 0x30) as nat);
    } else {
        assert(s.subrange(0, k) == s);
    }
}

} // verus!
