//! The request path of the builder API's header endpoint, as ASCII bytes.
use vstd::prelude::*;
use vstd::string::StringSliceAdditionalSpecFns;
use vstd::string::StrSliceExecFns;

verus! {

/// ASCII `/`.
pub const SLASH: u8 = 0x2f;

/// ASCII digit for a value below ten.
pub open spec fn dec_digit(v: nat) -> u8
    recommends
        v < 10,
{
    (0x30 + v) as u8
}

/// Decimal form of a number, most significant digit first, no leading zeros.
pub open spec fn dec_digits(n: nat) -> Seq<u8>
    decreases n,
{
    if n < 10 {
        seq![dec_digit(n)]
    } else {
        dec_digits(n / 10).push(dec_digit(n % 10))
    }
}

/// Lower-case ASCII hex digit for a value below sixteen.
pub open spec fn hex_digit(v: u8) -> u8
    recommends
        v < 16,
{
    if v < 10 {
        (0x30 + v) as u8
    } else {
        (0x61 + (v - 10)) as u8
    }
}

/// Two lower-case hex digits per byte, in order.
pub open spec fn hex_bytes(b: Seq<u8>) -> Seq<u8>
    decreases b.len(),
{
    if b.len() == 0 {
        seq![]
    } else {
        let x = b.last();
        hex_bytes(b.drop_last()) + seq![hex_digit(x / 16), hex_digit(x % 16)]
    }
}

/// `0x` followed by the hex digits of the bytes.
pub open spec fn prefixed_hex(b: Seq<u8>) -> Seq<u8> {
    seq![0x30u8, 0x78u8] + hex_bytes(b)
}

/// The header endpoint's path for a slot, a parent block hash and a public
/// key already written as text.
pub open spec fn header_path_spec(slot: u64, parent_hash: Seq<u8>, pubkey_text: Seq<u8>) -> Seq<u8> {
    "/eth/v1/builder/header/".spec_bytes() + dec_digits(slot as nat) + seq![SLASH]
        + prefixed_hex(parent_hash) + seq![SLASH] + pubkey_text
}

fn hex_digit_exec(v: u8) -> (r: u8)
    requires
        v < 16,
    ensures
        r == hex_digit(v),
{
    if v < 10 {
        0x30 + v
    } else {
        0x61 + (v - 10)
    }
}

/// Appends the decimal digits of `n`.
pub fn push_decimal(out: &mut Vec<u8>, n: u64)
    ensures
        final(out)@ == old(out)@ + dec_digits(n as nat),
    decreases n,
{
    if n >= 10 {
        push_decimal(out, n / 10);
    }
    out.push(0x30 + (n % 10) as u8);
    assert(out@ =~= old(out)@ + dec_digits(n as nat));
}

/// Appends `0x` and two lower-case hex digits per byte.
pub fn push_prefixed_hex(out: &mut Vec<u8>, bytes: &[u8])
    ensures
        final(out)@ == old(out)@ + prefixed_hex(bytes@),
{
    out.push(0x30);
    out.push(0x78);
    let ghost start = out@;
    let mut i: usize = 0;
    assert(bytes@.subrange(0, 0) =~= Seq::<u8>::empty());
    assert(out@ =~= start + hex_bytes(bytes@.subrange(0, 0)));
    while i < bytes.len()
        invariant
            i <= bytes@.len(),
            out@ == start + hex_bytes(bytes@.subrange(0, i as int)),
        decreases bytes@.len() - i,
    {
        let x: u8 = bytes[i];
        out.push(hex_digit_exec(x / 16));
        out.push(hex_digit_exec(x % 16));
        proof {
            let pre = bytes@.subrange(0, i as int + 1);
            assert(pre.drop_last() =~= bytes@.subrange(0, i as int));
            assert(pre.last() == x);
        }
        i = i + 1;
        assert(out@ =~= start + hex_bytes(bytes@.subrange(0, i as int)));
    }
    assert(bytes@.subrange(0, bytes@.len() as int) =~= bytes@);
    assert(final(out)@ =~= old(out)@ + prefixed_hex(bytes@));
}

/// Writes the header endpoint's path for `slot`, `parent_hash` and the public
/// key text `pubkey_text`.
pub fn header_path(slot: u64, parent_hash: &[u8; 32], pubkey_text: &str) -> (r: Vec<u8>)
    ensures
        r@ == header_path_spec(slot, parent_hash@, pubkey_text.spec_bytes()),
{
    let mut out: Vec<u8> = "/eth/v1/builder/header/".as_bytes_vec();
    push_decimal(&mut out, slot);
    out.push(SLASH);
    push_prefixed_hex(&mut out, parent_hash.as_slice());
    out.push(SLASH);
    let mut key: Vec<u8> = pubkey_text.as_bytes_vec();
    out.append(&mut key);
    out
}

} // verus!
