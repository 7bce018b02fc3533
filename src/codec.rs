//! Hexadecimal text, quantities and 32-byte ABI words.
use vstd::prelude::*;

verus! {

/// The ASCII code of a lowercase hex digit for `n < 16`.
pub open spec fn lower_digit(n: u8) -> u8 {
    if n < 10 {
        (48 + n) as u8
    } else {
        (87 + n) as u8
    }
}

/// The ASCII code of an uppercase hex digit for `n < 16`.
pub open spec fn upper_digit(n: nat) -> u8 {
    if n < 10 {
        (48 + n) as u8
    } else {
        (55 + n) as u8
    }
}

/// Two lowercase hex digits per byte, most significant nibble first.
pub open spec fn hex_lower(b: Seq<u8>) -> Seq<u8> {
    Seq::new(
        2 * b.len(),
        |i: int|
            if i % 2 == 0 {
                lower_digit(b[i / 2] / 16)
            } else {
                lower_digit(b[i / 2] % 16)
            },
    )
}

/// `0x` followed by the lowercase hex digits of `b`.
pub open spec fn hex_prefixed(b: Seq<u8>) -> Seq<u8> {
    seq![48u8, 120u8] + hex_lower(b)
}

/// The value of one hex digit, either case.
pub open spec fn digit_value(c: u8) -> Option<u8> {
    if 48 <= c <= 57 {
        Some((c - 48) as u8)
    } else if 97 <= c <= 102 {
        Some((c - 87) as u8)
    } else if 65 <= c <= 70 {
        Some((c - 55) as u8)
    } else {
        None
    }
}

/// Text `s` without a leading `0x`, if it has one.
pub open spec fn strip_0x(s: Seq<u8>) -> Seq<u8> {
    if s.len() >= 2 && s[0] == 48 && s[1] == 120 {
        s.subrange(2, s.len() as int)
    } else {
        s
    }
}

/// Whether `s` is an even number of hex digits.
pub open spec fn is_hex_text(s: Seq<u8>) -> bool {
    s.len() % 2 == 0 && forall|i: int| 0 <= i < s.len() ==> (#[trigger] digit_value(s[i])).is_some()
}

/// The bytes that the hex digits `s` stand for.
pub open spec fn hex_bytes(s: Seq<u8>) -> Seq<u8> {
    Seq::new(
        s.len() / 2,
        |i: int| (digit_value(s[2 * i]).unwrap() * 16 + digit_value(s[2 * i + 1]).unwrap()) as u8,
    )
}

/// What hex text, with or without `0x`, decodes to.
pub open spec fn decode_hex_spec(s: Seq<u8>) -> Option<Seq<u8>> {
    if is_hex_text(strip_0x(s)) {
        Some(hex_bytes(strip_0x(s)))
    } else {
        None
    }
}

/// Whether text starts with `0x`.
pub open spec fn has_0x(s: Seq<u8>) -> bool {
    s.len() >= 2 && s[0] == 48 && s[1] == 120
}

/// What `0x`-prefixed hex text decodes to; `None` without the prefix.
pub open spec fn decode_prefixed_hex_spec(s: Seq<u8>) -> Option<Seq<u8>> {
    if has_0x(s) {
        decode_hex_spec(s)
    } else {
        None
    }
}

/// Uppercase hex digits of `n`, without leading zeros (`0` is one digit).
pub open spec fn hex_upper_digits(n: nat) -> Seq<u8>
    decreases n,
{
    if n < 16 {
        seq![upper_digit(n)]
    } else {
        hex_upper_digits(n / 16) + seq![upper_digit(n % 16)]
    }
}

/// A JSON-RPC quantity: `0x` and the uppercase hex digits of `n`.
pub open spec fn quantity_text(n: nat) -> Seq<u8> {
    seq![48u8, 120u8] + hex_upper_digits(n)
}

/// The characters of ASCII bytes.
pub open spec fn ascii_chars(b: Seq<u8>) -> Seq<char> {
    b.map_values(|x: u8| x as char)
}

pub open spec fn is_ascii_bytes(b: Seq<u8>) -> bool {
    forall|i: int| 0 <= i < b.len() ==> #[trigger] b[i] < 128
}

/// Relies on String::from_utf8: ASCII bytes are valid UTF-8, one character each.
#[verifier::external_body]
pub(crate) fn ascii_string(v: Vec<u8>) -> (r: String)
    requires
        is_ascii_bytes(v@),
    ensures
        r@ == ascii_chars(v@),
{
    match String::from_utf8(v) {
        Ok(s) => s,
        Err(_) => String::new(),
    }
}

fn lower_digit_exec(n: u8) -> (r: u8)
    requires
        n < 16,
    ensures
        r == lower_digit(n),
        r < 128,
{
    if n < 10 {
        48 + n
    } else {
        87 + n
    }
}

fn upper_digit_exec(n: u128) -> (r: u8)
    requires
        n < 16,
    ensures
        r == upper_digit(n as nat),
        r < 128,
{
    if n < 10 {
        48 + n as u8
    } else {
        55 + n as u8
    }
}

/// Appends the lowercase hex digits of `b` to `out`.
pub fn push_hex(out: &mut Vec<u8>, b: &[u8])
    ensures
        final(out)@ == old(out)@ + hex_lower(b@),
{
    let ghost start = out@;
    let mut i: usize = 0;
    while i < b.len()
        invariant
            i <= b@.len(),
            out@ == start + hex_lower(b@.subrange(0, i as int)),
        decreases b@.len() - i,
    {
        let x = b[i];
        out.push(lower_digit_exec(x / 16));
        out.push(lower_digit_exec(x % 16));
        proof {
            let prev = hex_lower(b@.subrange(0, i as int));
            let next = hex_lower(b@.subrange(0, i + 1));
            assert(next =~= prev + seq![lower_digit(x / 16), lower_digit(x % 16)]);
        }
        i += 1;
    }
    assert(b@.subrange(0, b@.len() as int) =~= b@);
}

proof fn lemma_hex_lower_ascii(b: Seq<u8>)
    ensures
        is_ascii_bytes(hex_lower(b)),
{
    assert forall|i: int| 0 <= i < hex_lower(b).len() implies #[trigger] hex_lower(b)[i] < 128 by {
        let x = b[i / 2];
        assert(x / 16 < 16 && x % 16 < 16);
    }
}

/// The lowercase hex digits of `b`, without a prefix.
pub fn hex_encode(b: &[u8]) -> (r: String)
    ensures
        r@ == ascii_chars(hex_lower(b@)),
{
    let mut out: Vec<u8> = Vec::new();
    push_hex(&mut out, b);
    assert(out@ =~= hex_lower(b@));
    proof { lemma_hex_lower_ascii(b@); }
    ascii_string(out)
}

/// `0x` followed by the lowercase hex digits of `b`.
pub fn hex_encode_prefixed(b: &[u8]) -> (r: String)
    ensures
        r@ == ascii_chars(hex_prefixed(b@)),
{
    let mut out: Vec<u8> = Vec::new();
    out.push(48u8);
    out.push(120u8);
    push_hex(&mut out, b);
    assert(out@ =~= hex_prefixed(b@));
    proof {
        lemma_hex_lower_ascii(b@);
        assert forall|i: int| 0 <= i < out@.len() implies #[trigger] out@[i] < 128 by {
            if i >= 2 {
                assert(out@[i] == hex_lower(b@)[i - 2]);
            }
        }
    }
    ascii_string(out)
}

fn digit_value_exec(c: u8) -> (r: Option<u8>)
    ensures
        r == digit_value(c),
{
    if 48 <= c && c <= 57 {
        Some(c - 48)
    } else if 97 <= c && c <= 102 {
        Some(c - 87)
    } else if 65 <= c && c <= 70 {
        Some(c - 55)
    } else {
        None
    }
}

/// Decodes hex text, with or without a leading `0x`.
pub fn decode_hex(s: &[u8]) -> (r: Option<Vec<u8>>)
    ensures
        r.is_some() == decode_hex_spec(s@).is_some(),
        r.is_some() ==> r.unwrap()@ == decode_hex_spec(s@).unwrap(),
{
    let start: usize = if s.len() >= 2 && s[0] == 48 && s[1] == 120 {
        2
    } else {
        0
    };
    let ghost t = strip_0x(s@);
    assert(t =~= s@.subrange(start as int, s@.len() as int));
    if (s.len() - start) % 2 != 0 {
        return None;
    }
    let len: usize = s.len();
    let n: usize = (len - start) / 2;
    assert(start + 2 * n == s@.len());
    assert(t.len() == s@.len() - start);
    let mut out: Vec<u8> = Vec::new();
    let mut i: usize = 0;
    while i < n
        invariant
            t == s@.subrange(start as int, s@.len() as int),
            t == strip_0x(s@),
            start <= s@.len(),
            start + 2 * n == s@.len(),
            len == s@.len(),
            n == t.len() / 2,
            t.len() % 2 == 0,
            i <= n,
            out@.len() == i,
            forall|j: int| 0 <= j < 2 * i ==> (#[trigger] digit_value(t[j])).is_some(),
            forall|j: int| 0 <= j < i ==> #[trigger] out@[j] == hex_bytes(t)[j],
        decreases n - i,
    {
        assert(start + 2 * i + 1 < s@.len());
        let twice: usize = i + i;
        let p: usize = start + twice;
        let hi = digit_value_exec(s[p]);
        let lo = digit_value_exec(s[p + 1]);
        assert(s@[start + 2 * i] == t[2 * i]);
        assert(s@[start + 2 * i + 1] == t[2 * i + 1]);
        match (hi, lo) {
            (Some(h), Some(l)) => {
                assert(h < 16 && l < 16);
                out.push(h * 16 + l);
                i += 1;
            },
            _ => {
                assert(!is_hex_text(t)) by {
                    if hi.is_none() {
                        assert(digit_value(t[2 * i]).is_none());
                    } else {
                        assert(digit_value(t[2 * i + 1]).is_none());
                    }
                }
                return None;
            },
        }
    }
    assert(out@ =~= hex_bytes(t));
    Some(out)
}

/// Decodes hex text that must start with `0x`.
pub fn decode_prefixed_hex(s: &[u8]) -> (r: Option<Vec<u8>>)
    ensures
        r.is_some() == decode_prefixed_hex_spec(s@).is_some(),
        r.is_some() ==> r.unwrap()@ == decode_prefixed_hex_spec(s@).unwrap(),
{
    if s.len() >= 2 && s[0] == 48 && s[1] == 120 {
        decode_hex(s)
    } else {
        None
    }
}

/// Appends the uppercase hex digits of `n` to `out`.
fn push_hex_upper(out: &mut Vec<u8>, n: u128)
    requires
        old(out)@.len() + 32 <= usize::MAX,
        is_ascii_bytes(old(out)@),
    ensures
        final(out)@ == old(out)@ + hex_upper_digits(n as nat),
        final(out)@.len() <= old(out)@.len() + 32,
        is_ascii_bytes(final(out)@),
    decreases n,
{
    proof { lemma_hex_upper_len(n as nat); }
    if n >= 16 {
        push_hex_upper(out, n / 16);
    }
    let d = upper_digit_exec(n % 16);
    out.push(d);
    assert(n < 16 ==> out@ =~= old(out)@ + hex_upper_digits(n as nat));
    assert(n >= 16 ==> out@ =~= old(out)@ + hex_upper_digits(n as nat));
}

proof fn lemma_hex_upper_len(n: nat)
    requires
        n < 0x1_0000_0000_0000_0000_0000_0000_0000_0000,
    ensures
        hex_upper_digits(n).len() <= 32,
        n < 16 ==> hex_upper_digits(n).len() == 1,
    decreases n,
{
    if n >= 16 {
        assert(pow16(32) == 0x1_0000_0000_0000_0000_0000_0000_0000_0000nat) by {
            reveal_with_fuel(pow16, 33);
        }
        lemma_hex_upper_len_bound(n, 32);
    }
}

proof fn lemma_hex_upper_len_bound(n: nat, k: nat)
    requires
        n < pow16(k),
        k >= 1,
    ensures
        hex_upper_digits(n).len() <= k,
    decreases n,
{
    if n >= 16 {
        assert(k >= 2) by {
            if k == 0 { assert(pow16(0) == 1); }
            if k == 1 { assert(pow16(1) == 16) by { assert(pow16(0) == 1); } }
        }
        assert(n / 16 < pow16((k - 1) as nat)) by {
            assert(pow16(k) == 16 * pow16((k - 1) as nat));
        }
        lemma_hex_upper_len_bound(n / 16, (k - 1) as nat);
    }
}

pub open spec fn pow16(k: nat) -> nat
    decreases k,
{
    if k == 0 {
        1
    } else {
        16 * pow16((k - 1) as nat)
    }
}

/// The JSON-RPC quantity text of `n`: `0x` and its uppercase hex digits.
pub fn quantity(n: u128) -> (r: String)
    ensures
        r@ == ascii_chars(quantity_text(n as nat)),
{
    let mut out: Vec<u8> = Vec::new();
    out.push(48u8);
    out.push(120u8);
    push_hex_upper(&mut out, n);
    assert(out@ =~= quantity_text(n as nat));
    ascii_string(out)
}

/// A 32-byte word holding `b` right-aligned after zeros (an ABI address or topic).
pub open spec fn left_pad32(b: Seq<u8>) -> Seq<u8> {
    Seq::new((32 - b.len()) as nat, |i: int| 0u8) + b
}

pub fn pad_word(b: &[u8]) -> (r: Vec<u8>)
    requires
        b@.len() <= 32,
    ensures
        r@ == left_pad32(b@),
{
    let mut out: Vec<u8> = Vec::new();
    let pad: usize = 32 - b.len();
    let mut i: usize = 0;
    while i < pad
        invariant
            i <= pad,
            pad == 32 - b@.len(),
            out@ =~= Seq::new(i as nat, |j: int| 0u8),
        decreases pad - i,
    {
        out.push(0u8);
        i += 1;
    }
    let mut k: usize = 0;
    while k < b.len()
        invariant
            k <= b@.len(),
            pad == 32 - b@.len(),
            out@ =~= Seq::new(pad as nat, |j: int| 0u8) + b@.subrange(0, k as int),
        decreases b@.len() - k,
    {
        out.push(b[k]);
        k += 1;
        assert(out@ =~= Seq::new(pad as nat, |j: int| 0u8) + b@.subrange(0, k as int));
    }
    assert(b@.subrange(0, b@.len() as int) =~= b@);
    out
}

/// The big-endian integer held in 8 bytes of `w` from `k` on.
pub open spec fn be_u64_at(w: Seq<u8>, k: int) -> u64 {
    ((w[k] as u64) << 56u64) | ((w[k + 1] as u64) << 48u64) | ((w[k + 2] as u64) << 40u64) | (
    (w[k + 3] as u64) << 32u64) | ((w[k + 4] as u64) << 24u64) | ((w[k + 5] as u64) << 16u64) | (
    (w[k + 6] as u64) << 8u64) | (w[k + 7] as u64)
}

/// Whether the 32-byte big-endian word `w` is below 2^64.
pub open spec fn word_fits_u64(w: Seq<u8>) -> bool {
    forall|i: int| 0 <= i < 24 ==> #[trigger] w[i] == 0
}

/// The integer a 32-byte big-endian word holds, if it is below 2^64.
pub fn word_to_u64(w: &[u8]) -> (r: Option<u64>)
    requires
        w@.len() == 32,
    ensures
        r.is_some() == word_fits_u64(w@),
        r.is_some() ==> r.unwrap() == be_u64_at(w@, 24),
{
    let mut i: usize = 0;
    while i < 24
        invariant
            i <= 24,
            w@.len() == 32,
            forall|j: int| 0 <= j < i ==> #[trigger] w@[j] == 0,
        decreases 24 - i,
    {
        if w[i] != 0 {
            return None;
        }
        i += 1;
    }
    Some(
        ((w[24] as u64) << 56u64) | ((w[25] as u64) << 48u64) | ((w[26] as u64) << 40u64) | (
        (w[27] as u64) << 32u64) | ((w[28] as u64) << 24u64) | ((w[29] as u64) << 16u64) | (
        (w[30] as u64) << 8u64) | (w[31] as u64),
    )
}

/// Whether two byte strings are equal.
pub fn bytes_eq(a: &[u8], b: &[u8]) -> (r: bool)
    ensures
        r == (a@ == b@),
{
    if a.len() != b.len() {
        return false;
    }
    let mut i: usize = 0;
    while i < a.len()
        invariant
            i <= a@.len(),
            a@.len() == b@.len(),
            forall|j: int| 0 <= j < i ==> a@[j] == b@[j],
        decreases a@.len() - i,
    {
        if a[i] != b[i] {
            return false;
        }
        i += 1;
    }
    assert(a@ =~= b@);
    true
}

} // verus!
