//! The notification relay: what is announced, and to whom.

use vstd::prelude::*;
use crate::error::WhereError;
use crate::ident::{decoded, from_b64, hash_text, is_of_kind, to_b64, HashKind};
use crate::record::{Space, WhereOutput};

verus! {

/// A change, as observers are told of it.
#[derive(Clone, Debug)]
pub enum Message {
    /// A space was created.
    NewSpace(Space),
    /// A marker was attached.
    NewWhere(WhereOutput),
    /// The link made by this mutation was removed.
    DeleteWhere(String),
}

/// The envelope of a message: the space it is about, and the message.
#[derive(Clone, Debug)]
pub struct SignalPayload {
    pub space_hash: String,
    pub message: Message,
}

impl SignalPayload {
    /// The envelope that holds exactly the two parts given.
    pub fn new(space_hash: String, message: Message) -> (payload: Self)
        ensures
            payload.space_hash == space_hash,
            payload.message == message,
    {
        SignalPayload { space_hash, message }
    }
}

/// An envelope and the peers, by their text identifiers, to send it to.
#[derive(Debug)]
pub struct NotifyInput {
    pub folks: Vec<String>,
    pub signal: SignalPayload,
}

/// A multicast ready for dispatch: the peers by raw identifier, in the order
/// given, and the envelope untouched.
#[derive(Debug)]
pub struct Multicast {
    pub peers: Vec<Vec<u8>>,
    pub signal: SignalPayload,
}

/// Who may call the functions of a grant.
#[derive(Clone, Copy, Debug, PartialEq, Eq, Structural)]
pub enum CapAccess {
    /// Anyone, without a claim.
    Unrestricted,
}

/// A capability grant: the named functions, each as zome and function, are
/// open to callers as `access` says.
#[derive(Debug)]
pub struct CapGrant {
    pub tag: String,
    pub access: CapAccess,
    pub functions: Vec<(String, String)>,
}

/// Whether every peer named is a well-formed peer identity.
pub open spec fn all_peers_decode(folks: Seq<String>) -> bool {
    forall|i: int| 0 <= i < folks.len() ==> decoded(HashKind::Agent, (#[trigger] folks[i])@) is Some
}

/// The grant made once at start: the receiving entry point of the zome
/// `zome_name`, and nothing else, is open to every caller under an empty tag.
pub fn init(zome_name: String) -> (grant: CapGrant)
    ensures
        grant.tag@.len() == 0,
        grant.access == CapAccess::Unrestricted,
        grant.functions@.len() == 1,
        grant.functions@[0].0 == zome_name,
        grant.functions@[0].1@ == "recv_remote_signal"@,
{
    let mut functions: Vec<(String, String)> = Vec::new();
    functions.push((zome_name, "recv_remote_signal".to_string()));
    CapGrant { tag: String::new(), access: CapAccess::Unrestricted, functions }
}

/// The envelope that announces the space `input`, stored under `hash`: a
/// `NewSpace` message about that identifier, written as text, that carries
/// the space itself.
pub fn new_space_signal(input: Space, hash: &Vec<u8>) -> (signal: SignalPayload)
    ensures
        signal.space_hash@ == hash_text(hash@),
        signal.message == Message::NewSpace(input),
{
    SignalPayload::new(to_b64(hash), Message::NewSpace(input))
}

/// The multicast that `input` asks for. Every peer is read from its text
/// form; if one of them is no peer identity nothing is sent and the call
/// fails with `Undecodable`. Otherwise the peers stand in the order given
/// and the envelope is the one given.
pub fn notify(input: NotifyInput) -> (r: Result<Multicast, WhereError>)
    ensures
        r is Ok <==> all_peers_decode(input.folks@),
        r matches Ok(m) ==> m.signal == input.signal && m.peers@.len() == input.folks@.len()
            && forall|i: int| 0 <= i < m.peers@.len() ==> Some((#[trigger] m.peers@[i])@) == decoded(
                HashKind::Agent,
                input.folks@[i]@,
            ) && is_of_kind(HashKind::Agent, m.peers@[i]@),
        r matches Err(e) ==> e == WhereError::Undecodable,
{
    let mut folks: Vec<Vec<u8>> = Vec::new();
    let mut i: usize = 0;
    while i < input.folks.len()
        invariant
            i <= input.folks@.len(),
            folks@.len() == i,
            forall|j: int| 0 <= j < i ==> decoded(HashKind::Agent, (#[trigger] input.folks@[j])@) is Some,
            forall|j: int| 0 <= j < i ==> Some((#[trigger] folks@[j])@) == decoded(
                HashKind::Agent,
                input.folks@[j]@,
            ) && is_of_kind(HashKind::Agent, folks@[j]@),
        decreases input.folks@.len() - i,
    {
        match from_b64(HashKind::Agent, input.folks[i].as_str()) {
            Ok(raw) => {
                folks.push(raw);
            },
            Err(e) => {
                assert(decoded(HashKind::Agent, input.folks@[i as int]@) is None);
                return Err(e);
            },
        }
        i = i + 1;
    }
    Ok(Multicast { peers: folks, signal: input.signal })
}

} // verus!
