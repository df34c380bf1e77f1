//! The flag-gated string records: each optional text field is written as a
//! 16-bit count followed by the text, UTF-16LE when the link's unicode
//! flag is set and single-byte text otherwise.

use vstd::prelude::*;
use vstd::string::StrSliceExecFns;
use vstd::utf8::encode_utf8;

use crate::encode::{le16, push_le16, push_utf16le, utf16le};
use crate::header::{LinkFlags, IS_UNICODE};

verus! {

/// The serialized string record for `s`: a 16-bit count of UTF-16 code
/// units followed by the UTF-16LE bytes when `unicode`, else a 16-bit byte
/// count followed by the text's bytes. Neither form is terminated.
pub open spec fn string_record_bytes(s: Seq<char>, unicode: bool) -> Seq<u8> {
    if unicode {
        le16((utf16le(s).len() / 2) as u16) + utf16le(s)
    } else {
        le16(encode_utf8(s).len() as u16) + encode_utf8(s)
    }
}

/// True when the record's count fits its 16-bit field.
pub open spec fn string_record_fits(s: Seq<char>, unicode: bool) -> bool {
    if unicode {
        utf16le(s).len() / 2 <= 0xFFFF
    } else {
        encode_utf8(s).len() <= 0xFFFF
    }
}

/// Checks whether the record for `text` fits its 16-bit count field.
pub fn record_fits(text: &str, unicode: bool) -> (r: bool)
    ensures
        r == string_record_fits(text@, unicode),
{
    if unicode {
        let mut buf: Vec<u8> = Vec::new();
        push_utf16le(&mut buf, text);
        buf.len() / 2 <= 0xFFFF
    } else {
        let buf = text.as_bytes_vec();
        buf.len() <= 0xFFFF
    }
}

/// Serializes one string record, in the encoding the link flags call for.
pub fn to_data(text: &str, link_flags: LinkFlags) -> (r: Vec<u8>)
    requires
        string_record_fits(text@, link_flags.bits & IS_UNICODE == IS_UNICODE),
    ensures
        r@ == string_record_bytes(text@, link_flags.bits & IS_UNICODE == IS_UNICODE),
{
    let mut out: Vec<u8> = Vec::new();
    if link_flags.contains(IS_UNICODE) {
        let mut buf: Vec<u8> = Vec::new();
        push_utf16le(&mut buf, text);
        push_le16(&mut out, (buf.len() / 2) as u16);
        out.append(&mut buf);
        assert(out@ =~= string_record_bytes(text@, true));
    } else {
        let mut buf = text.as_bytes_vec();
        push_le16(&mut out, buf.len() as u16);
        out.append(&mut buf);
        assert(out@ =~= string_record_bytes(text@, false));
    }
    out
}

} // verus!
