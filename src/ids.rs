use vstd::prelude::*;

use mongodb::bson::oid::ObjectId;

verus! {

pub open spec fn is_hex_digit(c: char) -> bool {
    ('0' <= c && c <= '9') || ('a' <= c && c <= 'f') || ('A' <= c && c <= 'F')
}

/// The text form of a document id: 24 hexadecimal digits, either case.
pub open spec fn is_object_id_hex(s: Seq<char>) -> bool {
    s.len() == 24 && forall|i: int| 0 <= i < s.len() ==> is_hex_digit(#[trigger] s[i])
}

pub open spec fn ascii_lower(c: char) -> char {
    if 'A' <= c && c <= 'Z' {
        ((c as u32) + 32) as char
    } else {
        c
    }
}

/// The canonical (lower-case) spelling of a hexadecimal string.
pub open spec fn lower_hex(s: Seq<char>) -> Seq<char> {
    s.map_values(|c: char| ascii_lower(c))
}

/// Relies on `ObjectId::parse_str`, which hex-decodes the string and wants 12
/// bytes, and on `ObjectId::to_hex`, which encodes them again in lower case.
#[verifier::external_body]
fn object_id_canonical(s: &str) -> (r: Option<String>)
    ensures
        r is Some <==> is_object_id_hex(s@),
        r matches Some(h) ==> h@ == lower_hex(s@),
{
    ObjectId::parse_str(s).ok().map(|o| o.to_hex())
}

/// The id of a stored document, held in its canonical hexadecimal form.
#[derive(Clone, Debug, PartialEq, Eq)]
pub struct DocId {
    hex: String,
}

impl View for DocId {
    type V = Seq<char>;

    closed spec fn view(&self) -> Seq<char> {
        self.hex@
    }
}

impl DocId {
    /// Reads a document id from its 24-digit hexadecimal text.
    pub fn parse(s: &str) -> (r: Option<DocId>)
        ensures
            r is Some <==> is_object_id_hex(s@),
            r matches Some(d) ==> d@ == lower_hex(s@),
    {
        match object_id_canonical(s) {
            Some(hex) => Some(DocId { hex }),
            None => None,
        }
    }

    /// The id as lower-case hexadecimal text.
    pub fn to_hex(&self) -> (r: String)
        ensures
            r@ == self@,
    {
        self.hex.clone()
    }
}

} // verus!
