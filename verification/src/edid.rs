//! EDID blocks handed to the video capture bridge: checksums, accepted
//! sizes, and the hex form in which clients send and the configuration
//! keeps them.
use vstd::prelude::*;
use vstd::string::*;
use vstd::utf8::encode_utf8;
use crate::text::{ascii_lower_chars, ascii_lower_seq, chars_of, string_of};

verus! {

/// Size of one EDID block.
pub const EDID_BLOCK_SIZE: usize = 128;

/// Longest hex text accepted for an EDID (two blocks).
pub const EDID_MAX_HEX_LEN: usize = 512;

/// The EDID restored when a client asks for the default.
pub const DEFAULT_EDID_HEX: &'static str = "00ffffffffffff0031d8341200000000221a010380301b780fee91a3544c99260f50542fcf00315945598180814090409500a940b300023a801871382d40582c4500e00e1100001e000000fd001855185e11000a202020202020000000fc0068646d690a202020202020202000000010000000000000000000000000000001c402032df04c101f04132221200514021101230907078301000068030c001000002201e200eae3050000e30601001a3680a070381f4030203500e00e1100001a1a1d008051d01c2040803500e00e1100001c000000000000000000000000000000000000000000000000000000000000000000000000000000000000000000007d";

#[verifier::external_type_specification]
#[verifier::external_body]
pub struct ExFromHexError(hex::FromHexError);

/// Why an EDID was refused.
#[derive(Debug, Clone, Copy, PartialEq, Eq, Structural)]
pub enum EdidError {
    /// The hex text is longer than two blocks.
    TooLong,
    /// The hex text is not an even number of hex digits.
    InvalidFormat,
    /// The EDID is neither one nor two blocks long; carries the length.
    BadSize(usize),
}

/// An EDID ready to be written, with the text to keep in the configuration.
pub struct EdidUpdate {
    /// The bytes to hand to the capture bridge, checksums fixed.
    pub bytes: Vec<u8>,
    /// The hex text to keep, in lower case.
    pub saved_hex: String,
}

// ---------------------------------------------------------------------------
// Specifications
// ---------------------------------------------------------------------------
/// Sum of the bytes of `s`.
pub open spec fn byte_sum(s: Seq<u8>) -> int
    decreases s.len(),
{
    if s.len() == 0 {
        0
    } else {
        byte_sum(s.drop_last()) + s.last() as int
    }
}

/// The checksum byte that makes a block's 128 bytes sum to 0 modulo 256,
/// given its first 127 bytes.
pub open spec fn checksum_for(first: Seq<u8>) -> u8 {
    ((256 - byte_sum(first) % 256) % 256) as u8
}

/// `edid` with the last byte of every 128-byte block set to that block's
/// checksum.
pub open spec fn with_checksums(edid: Seq<u8>) -> Seq<u8> {
    Seq::new(
        edid.len(),
        |i: int|
            if i % 128 == 127 {
                checksum_for(edid.subrange(i - 127, i))
            } else {
                edid[i]
            },
    )
}

/// An ASCII hex digit byte.
pub open spec fn is_hex_byte(b: u8) -> bool {
    (48 <= b && b <= 57) || (97 <= b && b <= 102) || (65 <= b && b <= 70)
}

/// The value of an ASCII hex digit byte.
pub open spec fn hex_byte_value(b: u8) -> int {
    if 48 <= b && b <= 57 {
        b - 48
    } else if 97 <= b && b <= 102 {
        b - 97 + 10
    } else {
        b - 65 + 10
    }
}

/// Text that `hex::decode` accepts: an even number of hex digits.
pub open spec fn hex_well_formed(text: Seq<u8>) -> bool {
    text.len() % 2 == 0 && forall|i: int| 0 <= i < text.len() ==> is_hex_byte(#[trigger] text[i])
}

/// The bytes that well-formed hex text stands for, two digits per byte,
/// high digit first.
pub open spec fn hex_bytes(text: Seq<u8>) -> Seq<u8> {
    Seq::new(
        text.len() / 2,
        |i: int| (hex_byte_value(text[2 * i]) * 16 + hex_byte_value(text[2 * i + 1])) as u8,
    )
}

/// The hex text a request for `requested` stands for: the default EDID for
/// empty text.
pub open spec fn requested_hex(requested: Seq<char>) -> Seq<char> {
    if requested.len() == 0 {
        DEFAULT_EDID_HEX@
    } else {
        requested
    }
}

/// The lower-case hex digit of a value below 16.
pub open spec fn hex_digit_char(d: int) -> char {
    if d < 10 {
        (('0' as int) + d) as char
    } else {
        (('a' as int) + d - 10) as char
    }
}

/// The hex text of some bytes: per byte two lower-case hex digits, the high
/// one first.
pub open spec fn hex_text(b: Seq<u8>) -> Seq<char>
    decreases b.len(),
{
    if b.len() == 0 {
        Seq::empty()
    } else {
        hex_text(b.drop_last()) + seq![
            hex_digit_char(b.last() as int / 16),
            hex_digit_char(b.last() as int % 16),
        ]
    }
}

// ---------------------------------------------------------------------------
// Trusted items
// ---------------------------------------------------------------------------
/// `hex::encode`: two lower-case hex digits per byte, the high one first,
/// as the crate's `byte2hex` with its lower-case table gives them.
#[verifier::external_body]
fn hex_encode(b: &[u8]) -> (r: String)
    ensures
        r@ == hex_text(b@),
{
    hex::encode(b)
}

/// `hex::decode`: succeeds exactly on an even number of ASCII hex digits
/// (either case) and then yields one byte per pair, high digit first, as
/// the crate's `val` and `FromHex for Vec<u8>` do.
#[verifier::external_body]
fn hex_decode(data: &[u8]) -> (r: Result<Vec<u8>, hex::FromHexError>)
    ensures
        r is Ok <==> hex_well_formed(data@),
        r matches Ok(v) ==> v@ == hex_bytes(data@),
{
    hex::decode(data)
}

// ---------------------------------------------------------------------------
// Checksums and sizes
// ---------------------------------------------------------------------------
proof fn lemma_byte_sum_push(s: Seq<u8>, b: u8)
    ensures
        byte_sum(s.push(b)) == byte_sum(s) + b,
{
    assert(s.push(b).drop_last() =~= s);
}

/// The hex text in which an EDID read from the capture bridge is handed to
/// clients.
pub fn edid_hex(edid: &[u8]) -> (r: String)
    ensures
        r@ == hex_text(edid@),
{
    hex_encode(edid)
}

/// Sets the last byte of every 128-byte block to the block's checksum.
pub fn fix_edid_checksum(edid: &mut Vec<u8>)
    requires
        old(edid)@.len() % 128 == 0,
    ensures
        final(edid)@ == with_checksums(old(edid)@),
{
    let n = edid.len();
    let ghost orig = edid@;
    let mut b: usize = 0;
    while b < n / 128
        invariant
            n == orig.len(),
            n % 128 == 0,
            b <= n / 128,
            edid@.len() == n,
            forall|i: int| 0 <= i < b * 128 ==> edid@[i] == with_checksums(orig)[i],
            forall|i: int| b * 128 <= i < n ==> edid@[i] == orig[i],
        decreases n / 128 - b,
    {
        let start = b * 128;
        let mut sum: u8 = 0;
        let mut k: usize = 0;
        while k < 127
            invariant
                n == orig.len(),
                start + 128 <= n,
                edid@.len() == n,
                k <= 127,
                forall|i: int| start <= i < n ==> edid@[i] == orig[i],
                sum as int == byte_sum(orig.subrange(start as int, start + k)) % 256,
            decreases 127 - k,
        {
            let v = edid[start + k];
            proof {
                lemma_byte_sum_push(orig.subrange(start as int, start + k), v);
                assert(orig.subrange(start as int, start + k).push(v) =~= orig.subrange(
                    start as int,
                    start + k + 1,
                ));
            }
            sum = sum.wrapping_add(v);
            k = k + 1;
        }
        let c = 0u8.wrapping_sub(sum);
        edid.set(start + 127, c);
        proof {
            assert(c as int == checksum_for(orig.subrange(start as int, start + 127)));
            assert forall|i: int| 0 <= i < (b + 1) * 128 implies edid@[i] == with_checksums(
                orig,
            )[i] by {
                if i >= b * 128 {
                    if i == start + 127 {
                        assert(i % 128 == 127) by (nonlinear_arith)
                            requires
                                i == b * 128 + 127,
                        ;
                    } else {
                        assert(i % 128 != 127) by (nonlinear_arith)
                            requires
                                b * 128 <= i < b * 128 + 127,
                        ;
                    }
                }
            }
        }
        b = b + 1;
    }
    assert(edid@ =~= with_checksums(orig));
}

/// Checks the size of an EDID about to be written and fixes its checksums:
/// it must be one or two 128-byte blocks.
pub fn prepare_edid(edid: &[u8]) -> (r: Result<Vec<u8>, EdidError>)
    ensures
        edid@.len() != 128 && edid@.len() != 256 ==> r == Err::<Vec<u8>, EdidError>(
            EdidError::BadSize(edid@.len() as usize),
        ),
        edid@.len() == 128 || edid@.len() == 256 ==> (r matches Ok(v) && v@ == with_checksums(
            edid@,
        )),
{
    if edid.len() != 128 && edid.len() != 256 {
        return Err(EdidError::BadSize(edid.len()));
    }
    let mut data = vstd::slice::slice_to_vec(edid);
    fix_edid_checksum(&mut data);
    Ok(data)
}

/// Number of blocks in an EDID of `len` bytes.
pub fn edid_block_count(len: usize) -> (r: u32)
    requires
        len == 128 || len == 256,
    ensures
        r as int == len / 128,
{
    (len / 128) as u32
}

/// The EDID a client's request stands for: its hex text (the default EDID
/// for empty text) must be at most 512 bytes of an even number of hex
/// digits, and the bytes must make one or two blocks. Gives the bytes with
/// checksums fixed and the lower-case text to keep.
pub fn edid_update_from_hex(requested: &str) -> (r: Result<EdidUpdate, EdidError>)
    ensures
        ({
            let text = requested_hex(requested@);
            let bytes = encode_utf8(text);
            match r {
                Ok(u) => bytes.len() <= 512 && hex_well_formed(bytes) && (hex_bytes(bytes).len()
                    == 128 || hex_bytes(bytes).len() == 256) && u.bytes@ == with_checksums(
                    hex_bytes(bytes),
                ) && u.saved_hex@ == ascii_lower_seq(text),
                Err(EdidError::TooLong) => bytes.len() > 512,
                Err(EdidError::InvalidFormat) => bytes.len() <= 512 && !hex_well_formed(bytes),
                Err(EdidError::BadSize(n)) => bytes.len() <= 512 && hex_well_formed(bytes)
                    && n == hex_bytes(bytes).len() && n != 128 && n != 256,
            }
        }),
{
    let text: &str = if requested.unicode_len() == 0 {
        DEFAULT_EDID_HEX
    } else {
        requested
    };
    assert(text@ == requested_hex(requested@));
    let raw = text.as_bytes();
    assert(raw@ == encode_utf8(requested_hex(requested@)));
    let raw_len = raw.len();
    if raw_len > EDID_MAX_HEX_LEN {
        return Err(EdidError::TooLong);
    }
    let decoded = match hex_decode(raw) {
        Ok(v) => v,
        Err(_) => {
            return Err(EdidError::InvalidFormat);
        },
    };
    let bytes = match prepare_edid(decoded.as_slice()) {
        Ok(b) => b,
        Err(e) => {
            return Err(e);
        },
    };
    let cs = chars_of(text);
    let lower = ascii_lower_chars(cs.as_slice());
    let saved_hex = string_of(lower.as_slice());
    Ok(EdidUpdate { bytes, saved_hex })
}

// ---------------------------------------------------------------------------
// Laws
// ---------------------------------------------------------------------------
proof fn lemma_sum_mod(s: Seq<u8>, c: u8)
    requires
        c == checksum_for(s),
    ensures
        (byte_sum(s) + c as int) % 256 == 0,
{
    let t = byte_sum(s) % 256;
    assert(0 <= t < 256);
    assert(byte_sum(s) == (byte_sum(s) / 256) * 256 + t);
    if t == 0 {
        assert(c as int == 0);
    } else {
        assert(c as int == 256 - t);
    }
    assert((byte_sum(s) + c as int) == (byte_sum(s) / 256 + 1) * 256 || (byte_sum(s) + c as int)
        == (byte_sum(s) / 256) * 256);
}

/// After the checksums are fixed, every 128-byte block sums to 0 modulo
/// 256, and every byte but the last of each block is unchanged.
pub proof fn lemma_checksummed_blocks_sum_to_zero(edid: Seq<u8>, b: int)
    requires
        edid.len() % 128 == 0,
        0 <= b < edid.len() / 128,
    ensures
        byte_sum(with_checksums(edid).subrange(b * 128, b * 128 + 128)) % 256 == 0,
        forall|i: int|
            b * 128 <= i < b * 128 + 127 ==> with_checksums(edid)[i] == #[trigger] edid[i],
{
    let w = with_checksums(edid);
    assert(b * 128 + 128 <= edid.len()) by (nonlinear_arith)
        requires
            0 <= b < edid.len() / 128,
            edid.len() % 128 == 0,
    ;
    assert forall|i: int| b * 128 <= i < b * 128 + 127 implies w[i] == #[trigger] edid[i] by {
        assert(i % 128 != 127) by (nonlinear_arith)
            requires
                b * 128 <= i < b * 128 + 127,
        ;
    }
    let last = b * 128 + 127;
    assert(last % 128 == 127) by (nonlinear_arith)
        requires
            last == b * 128 + 127,
    ;
    let first = edid.subrange(b * 128, last);
    assert(w.subrange(b * 128, last) =~= first);
    let blk = w.subrange(b * 128, b * 128 + 128);
    assert(blk.drop_last() =~= first);
    lemma_sum_mod(first, w[last]);
}

/// Fixing the checksums twice gives what fixing them once gives.
pub proof fn lemma_fix_checksum_idempotent(edid: Seq<u8>)
    requires
        edid.len() % 128 == 0,
    ensures
        with_checksums(with_checksums(edid)) == with_checksums(edid),
{
    let w = with_checksums(edid);
    assert forall|i: int| 0 <= i < edid.len() implies #[trigger] with_checksums(w)[i] == w[i] by {
        if i % 128 == 127 {
            assert forall|j: int| i - 127 <= j < i implies w[j] == edid[j] by {
                assert(j % 128 != 127) by (nonlinear_arith)
                    requires
                        i % 128 == 127,
                        i - 127 <= j < i,
                ;
            }
            assert(w.subrange(i - 127, i) =~= edid.subrange(i - 127, i));
        }
    }
    assert(with_checksums(w) =~= w);
}

} // verus!
