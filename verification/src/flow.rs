//! Creating a space and attaching a marker, one host call at a time.
//!
//! A step names the call that is due and holds what the call needs. The
//! caller makes the call and reports what came back; the next step follows
//! from the two. A failed call ends the run and nothing further is asked.

use vstd::prelude::*;
use crate::error::WhereError;
use crate::ident::{decoded, from_b64, hash_text, is_of_kind, to_b64, HashKind};
use crate::index::{anchor_link, LinkRequest};
use crate::record::{Space, Where, WhereInput};
use crate::relay::{new_space_signal, Message, SignalPayload};

verus! {

/// What the host answered to a call.
#[derive(Debug)]
pub enum HostReply {
    /// The call went through and gave nothing to go on with.
    Done,
    /// The call went through and gave an identifier.
    Hash(Vec<u8>),
    /// The call did not go through.
    Failed,
}

/// Where the creation of a space stands: the call that is due, or the end.
#[derive(Debug)]
pub enum SpaceStep {
    /// Store the record.
    Store(Space),
    /// Ask for the identifier of the record.
    Hash(Space),
    /// Announce the space to the local observers.
    Announce { hash: Vec<u8>, signal: SignalPayload },
    /// Make sure that the anchor exists.
    EnsureAnchor { hash: Vec<u8> },
    /// Ask for the identifier of the anchor.
    LocateAnchor { hash: Vec<u8> },
    /// Link the space under the anchor.
    Link { text: String, request: LinkRequest },
    /// The space is created; this is its identifier as text.
    Done(String),
    /// A call failed.
    Failed(WhereError),
}

/// Where the attaching of a marker stands.
#[derive(Debug)]
pub enum WhereStep {
    /// Store the record.
    Store { base: Vec<u8>, entry: Where },
    /// Ask for the identifier of the record.
    Hash { base: Vec<u8>, entry: Where },
    /// Link the marker under its space.
    Link(LinkRequest),
    /// The marker is attached; this is the mutation of its link as text.
    Done(String),
    /// The input was malformed or a call failed.
    Failed(WhereError),
}

/// Whether `after` is the step that follows `before` once the call that was
/// due has been answered with `reply`.
pub open spec fn space_follows(before: SpaceStep, reply: HostReply, after: SpaceStep) -> bool {
    match before {
        SpaceStep::Done(_) | SpaceStep::Failed(_) => after == before,
        _ if reply is Failed => after == SpaceStep::Failed(WhereError::StoreUnavailable),
        SpaceStep::Store(input) => after == SpaceStep::Hash(input),
        SpaceStep::Hash(input) => match reply {
            HostReply::Hash(h) => after matches SpaceStep::Announce { hash, signal } && hash == h
                && signal.space_hash@ == hash_text(h@) && signal.message == Message::NewSpace(
                input,
            ),
            _ => after == SpaceStep::Failed(WhereError::StoreUnavailable),
        },
        SpaceStep::Announce { hash, signal } => after == (SpaceStep::EnsureAnchor { hash }),
        SpaceStep::EnsureAnchor { hash } => after == (SpaceStep::LocateAnchor { hash }),
        SpaceStep::LocateAnchor { hash } => match reply {
            HostReply::Hash(anchor) => after matches SpaceStep::Link { text, request } && text@
                == hash_text(hash@) && request.base == anchor && request.target == hash
                && request.tag@.len() == 0,
            _ => after == SpaceStep::Failed(WhereError::StoreUnavailable),
        },
        SpaceStep::Link { text, request } => after == SpaceStep::Done(text),
    }
}

/// Whether `first` is the step with which attaching `input` begins: the
/// record is stored if the input names a space, and nothing is done if not.
pub open spec fn where_begins(input: WhereInput, first: WhereStep) -> bool {
    match decoded(HashKind::Entry, input.space@) {
        Some(raw) => first matches WhereStep::Store { base, entry } && base@ == raw && is_of_kind(
            HashKind::Entry,
            base@,
        ) && entry == input.entry,
        None => first == WhereStep::Failed(WhereError::Undecodable),
    }
}

/// Whether `after` is the step that follows `before` once the call that was
/// due has been answered with `reply`.
pub open spec fn where_follows(before: WhereStep, reply: HostReply, after: WhereStep) -> bool {
    match before {
        WhereStep::Done(_) | WhereStep::Failed(_) => after == before,
        _ if reply is Failed => after == WhereStep::Failed(WhereError::StoreUnavailable),
        WhereStep::Store { base, entry } => after == (WhereStep::Hash { base, entry }),
        WhereStep::Hash { base, entry } => match reply {
            HostReply::Hash(h) => after matches WhereStep::Link(request) && request.base == base
                && request.target == h && request.tag@.len() == 0,
            _ => after == WhereStep::Failed(WhereError::StoreUnavailable),
        },
        WhereStep::Link(request) => match reply {
            HostReply::Hash(mutation) => after matches WhereStep::Done(text) && text@ == hash_text(
                mutation@,
            ),
            _ => after == WhereStep::Failed(WhereError::StoreUnavailable),
        },
    }
}

/// The identifier that a creation ends with is the text of the hash under
/// which the store holds the record, whatever the anchor is and whatever the
/// last call answered: two creations of records with the same hash end with
/// the same identifier.
pub proof fn law_identifier_follows_from_hash(
    hash: Vec<u8>,
    anchor: Vec<u8>,
    linking: SpaceStep,
    reply: HostReply,
    end: SpaceStep,
)
    requires
        space_follows(SpaceStep::LocateAnchor { hash }, HostReply::Hash(anchor), linking),
        space_follows(linking, reply, end),
        !(reply is Failed),
    ensures
        end matches SpaceStep::Done(text) && text@ == hash_text(hash@),
{
}

/// A run that has ended, well or badly, is not moved by any further answer.
pub proof fn law_ended_run_stays(before: SpaceStep, reply: HostReply, after: SpaceStep)
    requires
        before is Done || before is Failed,
        space_follows(before, reply, after),
    ensures
        after == before,
{
}

/// A failed call ends a run that was under way with `StoreUnavailable`, at
/// whatever step it stood: nothing further is asked of the host.
pub proof fn law_failed_call_ends_run(before: SpaceStep, after: SpaceStep)
    requires
        !(before is Done || before is Failed),
        space_follows(before, HostReply::Failed, after),
    ensures
        after == SpaceStep::Failed(WhereError::StoreUnavailable),
{
}

/// The step with which creating `input` begins.
pub fn create_space(input: Space) -> (first: SpaceStep)
    ensures
        first == SpaceStep::Store(input),
{
    SpaceStep::Store(input)
}

/// The step after `step`, given the host's answer to the call that was due.
/// The record is stored, then hashed, then announced under its identifier;
/// then the anchor is ensured and located, and the space linked under it.
/// The first call that fails ends the run with `StoreUnavailable`; a run
/// that has ended stays as it is.
pub fn create_space_next(step: SpaceStep, reply: HostReply) -> (next: SpaceStep)
    ensures
        space_follows(step, reply, next),
{
    match step {
        SpaceStep::Done(text) => SpaceStep::Done(text),
        SpaceStep::Failed(e) => SpaceStep::Failed(e),
        SpaceStep::Store(input) => match reply {
            HostReply::Failed => SpaceStep::Failed(WhereError::StoreUnavailable),
            _ => SpaceStep::Hash(input),
        },
        SpaceStep::Hash(input) => match reply {
            HostReply::Hash(hash) => {
                let signal = new_space_signal(input, &hash);
                SpaceStep::Announce { hash, signal }
            },
            _ => SpaceStep::Failed(WhereError::StoreUnavailable),
        },
        SpaceStep::Announce { hash, signal } => match reply {
            HostReply::Failed => SpaceStep::Failed(WhereError::StoreUnavailable),
            _ => SpaceStep::EnsureAnchor { hash },
        },
        SpaceStep::EnsureAnchor { hash } => match reply {
            HostReply::Failed => SpaceStep::Failed(WhereError::StoreUnavailable),
            _ => SpaceStep::LocateAnchor { hash },
        },
        SpaceStep::LocateAnchor { hash } => match reply {
            HostReply::Hash(anchor) => {
                let text = to_b64(&hash);
                SpaceStep::Link { text, request: anchor_link(anchor, hash) }
            },
            _ => SpaceStep::Failed(WhereError::StoreUnavailable),
        },
        SpaceStep::Link { text, request } => match reply {
            HostReply::Failed => SpaceStep::Failed(WhereError::StoreUnavailable),
            _ => SpaceStep::Done(text),
        },
    }
}

/// What the caller of a multicast is told once the host has answered the
/// dispatch: `SendFailure` exactly when the multicast could not be handed
/// over at all. Whether any peer received it is not known and not reported.
pub fn multicast_outcome(reply: &HostReply) -> (r: Result<(), WhereError>)
    ensures
        r == if reply is Failed {
            Err::<(), WhereError>(WhereError::SendFailure)
        } else {
            Ok::<(), WhereError>(())
        },
{
    match reply {
        HostReply::Failed => Err(WhereError::SendFailure),
        _ => Ok(()),
    }
}

/// The step with which attaching `input` begins.
pub fn add_where(input: WhereInput) -> (first: WhereStep)
    ensures
        where_begins(input, first),
{
    match from_b64(HashKind::Entry, input.space.as_str()) {
        Ok(base) => WhereStep::Store { base, entry: input.entry },
        Err(e) => WhereStep::Failed(e),
    }
}

/// The step after `step`, given the host's answer to the call that was due.
/// The record is stored, then hashed, then linked under its space; the
/// mutation of the link, as text, is the outcome. The first call that fails
/// ends the run with `StoreUnavailable`; a run that has ended stays as it is.
pub fn add_where_next(step: WhereStep, reply: HostReply) -> (next: WhereStep)
    ensures
        where_follows(step, reply, next),
{
    match step {
        WhereStep::Done(text) => WhereStep::Done(text),
        WhereStep::Failed(e) => WhereStep::Failed(e),
        WhereStep::Store { base, entry } => match reply {
            HostReply::Failed => WhereStep::Failed(WhereError::StoreUnavailable),
            _ => WhereStep::Hash { base, entry },
        },
        WhereStep::Hash { base, entry } => match reply {
            HostReply::Hash(hash) => WhereStep::Link(
                LinkRequest { base, target: hash, tag: Vec::new() },
            ),
            _ => WhereStep::Failed(WhereError::StoreUnavailable),
        },
        WhereStep::Link(request) => match reply {
            HostReply::Hash(mutation) => WhereStep::Done(to_b64(&mutation)),
            _ => WhereStep::Failed(WhereError::StoreUnavailable),
        },
    }
}

} // verus!
