//! FourCC tag helpers: packing four ASCII bytes into a big-endian `u32`
//! property selector and turning such a selector back into readable text.

use vstd::prelude::*;
use vstd::string::StringSliceAdditionalSpecFns;
use vstd::utf8::{
    decode_utf8, encode_utf8, is_ascii_chars, is_ascii_chars_encode_utf8, encode_utf8_valid_utf8,
    encode_utf8_decode_utf8, valid_utf8,
};
use crate::codec::{be_u32_of, be_bytes_of_u32};

verus! {

/// Small plain record handed to the playback backend callback.
pub struct TestData {
    pub num: u8,
}

/// The characters of the four big-endian bytes of a FourCC selector.
pub open spec fn fourcc_chars(n: u32) -> Seq<char> {
    be_bytes_of_u32(n).map_values(|b: u8| b as char)
}

/// All four big-endian bytes of a FourCC selector are ASCII.
pub open spec fn fourcc_is_ascii(n: u32) -> bool {
    forall|i| 0 <= i < 4 ==> #[trigger] be_bytes_of_u32(n)[i] < 0x80
}

/// Relies on String::from_utf8: it returns `Ok` exactly on valid UTF-8
/// input, and the returned text is the decoding of those bytes.
#[verifier::external_body]
fn string_from_utf8(v: Vec<u8>) -> (r: Option<String>)
    ensures
        r is Some <==> valid_utf8(v@),
        r matches Some(s) ==> s@ == decode_utf8(v@),
{
    String::from_utf8(v).ok()
}

/// Packs a four-byte ASCII tag into its big-endian `u32` selector value.
pub fn ascii_str_transmute_u32_be(string: &str) -> (r: Result<u32, &'static str>)
    ensures
        r is Ok <==> string.spec_bytes().len() == 4,
        r matches Ok(n) ==> n == be_u32_of(string.spec_bytes()),
{
    let bytes = string.as_bytes();
    if bytes.len() != 4 {
        return Err("Incorrect number of bytes!");
    }
    let num = (bytes[0] as u32) * 0x100_0000 + (bytes[1] as u32) * 0x1_0000 + (bytes[2] as u32)
        * 0x100 + (bytes[3] as u32);
    Ok(num)
}

/// Unpacks a `u32` selector into its four-character tag text; fails when a
/// byte of the selector is not ASCII.
pub fn u32_transmute_ascii_str_le(number: u32) -> (r: Result<String, &'static str>)
    ensures
        r is Ok <==> fourcc_is_ascii(number),
        r matches Ok(s) ==> s@ == fourcc_chars(number),
{
    let b0 = (number / 0x100_0000) as u8;
    let b1 = ((number / 0x1_0000) % 0x100) as u8;
    let b2 = ((number / 0x100) % 0x100) as u8;
    let b3 = (number % 0x100) as u8;
    if b0 >= 0x80 || b1 >= 0x80 || b2 >= 0x80 || b3 >= 0x80 {
        proof {
            if b0 >= 0x80 {
                assert(be_bytes_of_u32(number)[0] >= 0x80);
            } else if b1 >= 0x80 {
                assert(be_bytes_of_u32(number)[1] >= 0x80);
            } else if b2 >= 0x80 {
                assert(be_bytes_of_u32(number)[2] >= 0x80);
            } else {
                assert(be_bytes_of_u32(number)[3] >= 0x80);
            }
            assert(!fourcc_is_ascii(number));
        }
        return Err("Tag bytes are not ASCII!");
    }
    let mut v: Vec<u8> = Vec::new();
    v.push(b0);
    v.push(b1);
    v.push(b2);
    v.push(b3);
    proof {
        assert(v@ =~= be_bytes_of_u32(number));
        let chars = fourcc_chars(number);
        assert(is_ascii_chars(chars)) by {
            assert(forall|i| 0 <= i < 4 ==> #[trigger] be_bytes_of_u32(number)[i] < 0x80);
        }
        is_ascii_chars_encode_utf8(chars);
        assert(encode_utf8(chars) =~= v@);
        encode_utf8_valid_utf8(chars);
        encode_utf8_decode_utf8(chars);
    }
    match string_from_utf8(v) {
        Some(s) => Ok(s),
        None => {
            proof {
                assert(false);
            }
            Err("Tag bytes are not ASCII!")
        },
    }
}

} // verus!
