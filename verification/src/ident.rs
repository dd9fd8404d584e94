//! Identifiers in their two forms: 39 raw bytes, and the text that stands for
//! them at the boundary.

use vstd::prelude::*;
use vstd::string::StrSliceExecFns;
use crate::error::WhereError;

verus! {

/// What an identifier names. The kind decides the three bytes it begins with.
#[derive(Clone, Copy, Debug, PartialEq, Eq, Structural)]
pub enum HashKind {
    /// A peer identity.
    Agent,
    /// A record, addressed by its content.
    Entry,
    /// A mutation: the creation of a record or of a link.
    Header,
}

/// The three bytes that every raw identifier of `kind` begins with.
pub open spec fn kind_prefix(kind: HashKind) -> Seq<u8> {
    match kind {
        HashKind::Agent => seq![132u8, 32u8, 36u8],
        HashKind::Entry => seq![132u8, 33u8, 36u8],
        HashKind::Header => seq![132u8, 41u8, 36u8],
    }
}

/// Whether `raw` has the shape of an identifier that begins with `prefix`:
/// 39 bytes, the first three of them the prefix.
pub open spec fn has_prefix(prefix: Seq<u8>, raw: Seq<u8>) -> bool {
    &&& raw.len() == 39
    &&& prefix.len() == 3
    &&& raw[0] == prefix[0]
    &&& raw[1] == prefix[1]
    &&& raw[2] == prefix[2]
}

/// Whether `raw` has the shape of an identifier of kind `kind`.
pub open spec fn is_of_kind(kind: HashKind, raw: Seq<u8>) -> bool {
    has_prefix(kind_prefix(kind), raw)
}

/// The text that `holo_hash` writes for the raw bytes `raw`.
pub uninterp spec fn hash_text(raw: Seq<u8>) -> Seq<char>;

/// The raw bytes that `holo_hash` reads from `text` when it expects them to
/// begin with `prefix`, or `None` where it rejects the text.
pub uninterp spec fn hash_bytes(prefix: Seq<u8>, text: Seq<char>) -> Option<Seq<u8>>;

/// The raw identifier of kind `kind` that `text` stands for, if any: text that
/// does not begin with the letter `u` stands for none.
pub open spec fn decoded(kind: HashKind, text: Seq<char>) -> Option<Seq<u8>> {
    if text.len() > 0 && text[0] == 'u' {
        hash_bytes(kind_prefix(kind), text)
    } else {
        None
    }
}

/// The error of `holo_hash`, `holo_hash::HoloHashError`. It is carried from
/// the call to the place where it is turned into `Undecodable`, and never
/// looked into.
#[verifier::external_type_specification]
#[verifier::external_body]
pub struct ExHoloHashError(holo_hash::HoloHashError);

/// Calls `holo_hash::encode::holo_hash_encode`. The contract names the text
/// that comes back, a function of the bytes alone, and says the one thing
/// that the function shows of it at a glance: it begins with the letter `u`.
#[verifier::external_body]
fn encode_raw(raw: &Vec<u8>) -> (text: String)
    ensures
        text@ == hash_text(raw@),
        text@.len() > 0 && text@[0] == 'u',
{
    holo_hash::encode::holo_hash_encode(raw.as_slice())
}

/// Calls `holo_hash::encode::holo_hash_decode`, which slices off the first
/// byte of the text before anything else: the text must begin with `u`. The
/// contract names the outcome, success or not, and says of the bytes read
/// what the function checks before it hands them out: there are 39 of them,
/// and they begin with the prefix asked for.
#[verifier::external_body]
fn decode_text(prefix: &Vec<u8>, text: &str) -> (r: Result<Vec<u8>, holo_hash::HoloHashError>)
    requires
        text@.len() > 0,
        text@[0] == 'u',
    ensures
        r is Ok <==> hash_bytes(prefix@, text@) is Some,
        r matches Ok(raw) ==> Some(raw@) == hash_bytes(prefix@, text@) && has_prefix(prefix@, raw@),
{
    holo_hash::encode::holo_hash_decode(prefix.as_slice(), text)
}

/// The prefix of `kind` as bytes.
pub fn prefix_of(kind: HashKind) -> (prefix: Vec<u8>)
    ensures
        prefix@ == kind_prefix(kind),
{
    let prefix = match kind {
        HashKind::Agent => vec![132u8, 32u8, 36u8],
        HashKind::Entry => vec![132u8, 33u8, 36u8],
        HashKind::Header => vec![132u8, 41u8, 36u8],
    };
    assert(prefix@ =~= kind_prefix(kind));
    prefix
}

/// Writes a raw identifier as text. The text begins with the letter `u`, so
/// reading it back never stops at the first letter: whether it is read as an
/// identifier of `kind` is up to its bytes alone.
pub fn to_b64(raw: &Vec<u8>) -> (text: String)
    ensures
        text@ == hash_text(raw@),
        text@.len() > 0 && text@[0] == 'u',
        forall|kind: HashKind| #[trigger]
            decoded(kind, text@) == hash_bytes(kind_prefix(kind), hash_text(raw@)),
{
    encode_raw(raw)
}

/// Reads the text form of an identifier of kind `kind`. Text that stands for
/// no such identifier is `Undecodable`.
pub fn from_b64(kind: HashKind, text: &str) -> (r: Result<Vec<u8>, WhereError>)
    ensures
        r is Ok <==> decoded(kind, text@) is Some,
        r matches Ok(raw) ==> Some(raw@) == decoded(kind, text@) && is_of_kind(kind, raw@),
        r matches Err(e) ==> e == WhereError::Undecodable,
{
    if text.unicode_len() == 0 {
        return Err(WhereError::Undecodable);
    }
    if text.get_char(0) != 'u' {
        return Err(WhereError::Undecodable);
    }
    let prefix = prefix_of(kind);
    match decode_text(&prefix, text) {
        Ok(raw) => Ok(raw),
        Err(_) => Err(WhereError::Undecodable),
    }
}

} // verus!
