use vstd::prelude::*;

verus! {

/// The `i`-th byte, most significant first, of the big-endian notation of `x`.
pub open spec fn be_byte(x: u64, i: int) -> u8 {
    ((x >> ((7 - i) * 8) as u64) & 0xff) as u8
}

/// The eight bytes of `x`, most significant first, as `x.to_be_bytes()` gives them.
pub open spec fn be_bytes(x: u64) -> Seq<u8> {
    Seq::new(8, |i: int| be_byte(x, i))
}

/// Appends the big-endian bytes of `x` to `out`.
pub fn push_be_bytes(out: &mut Vec<u8>, x: u64)
    ensures
        final(out)@ == old(out)@ + be_bytes(x),
{
    let mut i: u64 = 0;
    while i < 8
        invariant
            0 <= i <= 8,
            out@ == old(out)@ + be_bytes(x).subrange(0, i as int),
        decreases 8 - i,
    {
        let b: u8 = ((x >> ((7 - i) * 8)) & 0xff) as u8;
        out.push(b);
        i = i + 1;
        assert(out@ =~= old(out)@ + be_bytes(x).subrange(0, i as int));
    }
    assert(be_bytes(x).subrange(0, 8) =~= be_bytes(x));
}

/// Appends the bytes of `src` to `out`.
pub fn push_slice(out: &mut Vec<u8>, src: &[u8])
    ensures
        final(out)@ == old(out)@ + src@,
{
    let n = src.len();
    let mut i: usize = 0;
    while i < n
        invariant
            n == src@.len(),
            0 <= i <= n,
            out@ == old(out)@ + src@.subrange(0, i as int),
        decreases n - i,
    {
        out.push(src[i]);
        i = i + 1;
        assert(out@ =~= old(out)@ + src@.subrange(0, i as int));
    }
    assert(src@.subrange(0, n as int) =~= src@);
}

/// A copy of `src`.
pub fn copy_bytes(src: &Vec<u8>) -> (r: Vec<u8>)
    ensures
        r@ == src@,
{
    let mut r: Vec<u8> = Vec::new();
    push_slice(&mut r, src.as_slice());
    assert(r@ =~= src@);
    r
}

/// Whether `a` and `b` hold the same bytes.
pub fn bytes_eq(a: &Vec<u8>, b: &Vec<u8>) -> (r: bool)
    ensures
        r == (a@ == b@),
{
    if a.len() != b.len() {
        return false;
    }
    let n = a.len();
    let mut i: usize = 0;
    while i < n
        invariant
            n == a@.len(),
            n == b@.len(),
            0 <= i <= n,
            forall|j: int| 0 <= j < i ==> a@[j] == b@[j],
        decreases n - i,
    {
        if a[i] != b[i] {
            return false;
        }
        i = i + 1;
    }
    assert(a@ =~= b@);
    true
}

/// The chain's error type, which `to_binary` returns; opaque here.
#[verifier::external_type_specification]
#[verifier::external_body]
pub struct ExStdError(secret_cosmwasm_std::StdError);

/// The ASCII decimal digits of `n`, most significant first (`0` is byte 48).
pub open spec fn ascii_digits(n: nat) -> Seq<u8>
    decreases n,
{
    if n < 10 {
        seq![(48 + n) as u8]
    } else {
        ascii_digits(n / 10).push((48 + n % 10) as u8)
    }
}

/// The number that a string of ASCII decimal digits writes.
pub open spec fn ascii_value(s: Seq<u8>) -> nat
    decreases s.len(),
{
    if s.len() == 0 { 0 } else { ascii_value(s.drop_last()) * 10 + (s.last() - 48) as nat }
}

/// Reading back the ASCII digits of `n` gives `n`; they are digits (bytes 48 to
/// 57), and there is at least one.
pub proof fn ascii_digits_read_back(n: nat)
    ensures
        ascii_value(ascii_digits(n)) == n,
        ascii_digits(n).len() > 0,
        forall|i: int| 0 <= i < ascii_digits(n).len() ==> 48 <= #[trigger] ascii_digits(n)[i] <= 57,
    decreases n,
{
    if n < 10 {
        assert(ascii_digits(n).drop_last() =~= Seq::<u8>::empty());
        assert(ascii_value(Seq::<u8>::empty()) == 0);
    } else {
        ascii_digits_read_back(n / 10);
        let d = ascii_digits(n / 10);
        assert(ascii_digits(n).drop_last() =~= d);
        assert forall|i: int| 0 <= i < ascii_digits(n).len() implies 48 <= #[trigger] ascii_digits(n)[i] <= 57 by {
            if i < d.len() {
                assert(ascii_digits(n)[i] == d[i]);
            }
        }
    }
}

/// Text ending in a non-digit (or nothing), followed by a number's ASCII digits,
/// can be split in one way only.
pub proof fn split_before_digits(q1: Seq<u8>, a: nat, q2: Seq<u8>, c: nat)
    requires
        q1 + ascii_digits(a) == q2 + ascii_digits(c),
        q1.len() > 0 ==> q1.last() < 48,
        q2.len() > 0 ==> q2.last() < 48,
    ensures
        a == c,
        q1 == q2,
{
    ascii_digits_read_back(a);
    ascii_digits_read_back(c);
    let da = ascii_digits(a);
    let dc = ascii_digits(c);
    let s = q1 + da;
    let t = q2 + dc;
    if da.len() < dc.len() {
        let k = s.len() - da.len() - 1;
        if q1.len() == 0 {
            assert(false);
        }
        assert(s[k] == q1.last());
        assert(t[k] == dc[dc.len() - da.len() - 1]);
        assert(false);
    } else if dc.len() < da.len() {
        let k = t.len() - dc.len() - 1;
        if q2.len() == 0 {
            assert(false);
        }
        assert(t[k] == q2.last());
        assert(s[k] == da[da.len() - dc.len() - 1]);
        assert(false);
    }
    assert(da =~= s.subrange(q1.len() as int, s.len() as int));
    assert(dc =~= t.subrange(q2.len() as int, t.len() as int));
    assert(q1 =~= s.subrange(0, q1.len() as int));
    assert(q2 =~= t.subrange(0, q2.len() as int));
}

/// The elements of a JSON array of the numbers `bytes`: their decimal notations
/// separated by commas (`,` is byte 44).
pub open spec fn json_items(bytes: Seq<u8>) -> Seq<u8>
    decreases bytes.len(),
{
    if bytes.len() == 0 {
        Seq::empty()
    } else if bytes.len() == 1 {
        ascii_digits(bytes[0] as nat)
    } else {
        json_items(bytes.drop_last()) + seq![44u8] + ascii_digits(bytes.last() as nat)
    }
}

/// The elements of a JSON array of numbers name the numbers unambiguously.
pub proof fn json_items_injective(b1: Seq<u8>, b2: Seq<u8>)
    requires
        json_items(b1) == json_items(b2),
    ensures
        b1 == b2,
    decreases b1.len() + b2.len(),
{
    if b1.len() > 0 {
        ascii_digits_read_back(b1.last() as nat);
    }
    if b2.len() > 0 {
        ascii_digits_read_back(b2.last() as nat);
    }
    if b1.len() == 0 || b2.len() == 0 {
        assert(b1.len() == 0 && b2.len() == 0);
        assert(b1 =~= b2);
    } else {
        let q1 = if b1.len() == 1 { Seq::<u8>::empty() } else { json_items(b1.drop_last()) + seq![44u8] };
        let q2 = if b2.len() == 1 { Seq::<u8>::empty() } else { json_items(b2.drop_last()) + seq![44u8] };
        assert(json_items(b1) =~= q1 + ascii_digits(b1.last() as nat));
        assert(json_items(b2) =~= q2 + ascii_digits(b2.last() as nat));
        split_before_digits(q1, b1.last() as nat, q2, b2.last() as nat);
        if b1.len() == 1 || b2.len() == 1 {
            assert(b1.len() == 1 && b2.len() == 1);
            assert(b1 =~= b2);
        } else {
            assert(json_items(b1.drop_last()) =~= q1.drop_last());
            assert(json_items(b2.drop_last()) =~= q2.drop_last());
            json_items_injective(b1.drop_last(), b2.drop_last());
            assert(b1 =~= b1.drop_last().push(b1.last()));
            assert(b2 =~= b2.drop_last().push(b2.last()));
        }
    }
}

/// Different lists of bytes have different JSON encodings.
pub proof fn json_of_bytes_injective(b1: Seq<u8>, b2: Seq<u8>)
    requires
        json_of_bytes(b1) == json_of_bytes(b2),
    ensures
        b1 == b2,
{
    let j1 = json_of_bytes(b1);
    let j2 = json_of_bytes(b2);
    assert(json_items(b1) =~= j1.subrange(1, j1.len() - 1));
    assert(json_items(b2) =~= j2.subrange(1, j2.len() - 1));
    json_items_injective(b1, b2);
}

/// Different numbers have different big-endian bytes.
pub proof fn be_bytes_injective(x: u64, y: u64)
    requires
        be_bytes(x) == be_bytes(y),
    ensures
        x == y,
{
    assert(((7 - 0int) * 8) as u64 == 56u64);
    assert(be_bytes(x)[0] == be_byte(x, 0) && be_bytes(y)[0] == be_byte(y, 0));
    assert(be_byte(x, 0) == ((x >> 56u64) & 0xff) as u8 && be_byte(y, 0) == ((y >> 56u64) & 0xff) as u8);
    assert(be_bytes(x)[0] == be_bytes(y)[0]);
    assert(((7 - 1int) * 8) as u64 == 48u64);
    assert(be_bytes(x)[1] == be_byte(x, 1) && be_bytes(y)[1] == be_byte(y, 1));
    assert(be_byte(x, 1) == ((x >> 48u64) & 0xff) as u8 && be_byte(y, 1) == ((y >> 48u64) & 0xff) as u8);
    assert(be_bytes(x)[1] == be_bytes(y)[1]);
    assert(((7 - 2int) * 8) as u64 == 40u64);
    assert(be_bytes(x)[2] == be_byte(x, 2) && be_bytes(y)[2] == be_byte(y, 2));
    assert(be_byte(x, 2) == ((x >> 40u64) & 0xff) as u8 && be_byte(y, 2) == ((y >> 40u64) & 0xff) as u8);
    assert(be_bytes(x)[2] == be_bytes(y)[2]);
    assert(((7 - 3int) * 8) as u64 == 32u64);
    assert(be_bytes(x)[3] == be_byte(x, 3) && be_bytes(y)[3] == be_byte(y, 3));
    assert(be_byte(x, 3) == ((x >> 32u64) & 0xff) as u8 && be_byte(y, 3) == ((y >> 32u64) & 0xff) as u8);
    assert(be_bytes(x)[3] == be_bytes(y)[3]);
    assert(((7 - 4int) * 8) as u64 == 24u64);
    assert(be_bytes(x)[4] == be_byte(x, 4) && be_bytes(y)[4] == be_byte(y, 4));
    assert(be_byte(x, 4) == ((x >> 24u64) & 0xff) as u8 && be_byte(y, 4) == ((y >> 24u64) & 0xff) as u8);
    assert(be_bytes(x)[4] == be_bytes(y)[4]);
    assert(((7 - 5int) * 8) as u64 == 16u64);
    assert(be_bytes(x)[5] == be_byte(x, 5) && be_bytes(y)[5] == be_byte(y, 5));
    assert(be_byte(x, 5) == ((x >> 16u64) & 0xff) as u8 && be_byte(y, 5) == ((y >> 16u64) & 0xff) as u8);
    assert(be_bytes(x)[5] == be_bytes(y)[5]);
    assert(((7 - 6int) * 8) as u64 == 8u64);
    assert(be_bytes(x)[6] == be_byte(x, 6) && be_bytes(y)[6] == be_byte(y, 6));
    assert(be_byte(x, 6) == ((x >> 8u64) & 0xff) as u8 && be_byte(y, 6) == ((y >> 8u64) & 0xff) as u8);
    assert(be_bytes(x)[6] == be_bytes(y)[6]);
    assert(((7 - 7int) * 8) as u64 == 0u64);
    assert(be_bytes(x)[7] == be_byte(x, 7) && be_bytes(y)[7] == be_byte(y, 7));
    assert(be_byte(x, 7) == ((x >> 0u64) & 0xff) as u8 && be_byte(y, 7) == ((y >> 0u64) & 0xff) as u8);
    assert(be_bytes(x)[7] == be_bytes(y)[7]);
    assert(x == y) by (bit_vector)
        requires
            ((x >> 56u64) & 0xff) as u8 == ((y >> 56u64) & 0xff) as u8,
            ((x >> 48u64) & 0xff) as u8 == ((y >> 48u64) & 0xff) as u8,
            ((x >> 40u64) & 0xff) as u8 == ((y >> 40u64) & 0xff) as u8,
            ((x >> 32u64) & 0xff) as u8 == ((y >> 32u64) & 0xff) as u8,
            ((x >> 24u64) & 0xff) as u8 == ((y >> 24u64) & 0xff) as u8,
            ((x >> 16u64) & 0xff) as u8 == ((y >> 16u64) & 0xff) as u8,
            ((x >> 8u64) & 0xff) as u8 == ((y >> 8u64) & 0xff) as u8,
            ((x >> 0u64) & 0xff) as u8 == ((y >> 0u64) & 0xff) as u8,
    ;
}

/// The JSON encoding of a list of bytes as an array of numbers: `[`, the
/// elements, `]` (bytes 91 and 93).
pub open spec fn json_of_bytes(bytes: Seq<u8>) -> Seq<u8> {
    seq![91u8] + json_items(bytes) + seq![93u8]
}

/// `secret_cosmwasm_std::to_binary` on a list of bytes, which serde-json-wasm
/// writes as a JSON array of numbers. Claimed: it succeeds (the serializer has
/// no failing path for a list of bytes) and gives `json_of_bytes` of the input.
#[verifier::external_body]
pub fn bytes_to_binary(bytes: &Vec<u8>) -> (r: Result<Vec<u8>, secret_cosmwasm_std::StdError>)
    ensures
        r is Ok,
        r->Ok_0@ == json_of_bytes(bytes@),
{
    match secret_cosmwasm_std::to_binary(bytes) {
        Ok(b) => Ok(b.0),
        Err(e) => Err(e),
    }
}

/// The message of a `secret_cosmwasm_std::StdError`, as its `Display` writes it. Nothing is
/// claimed of the text.
#[verifier::external_body]
pub fn std_error_message(e: &secret_cosmwasm_std::StdError) -> String {
    e.to_string()
}

} // verus!
