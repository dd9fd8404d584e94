//! Shared spaces and the location markers posted inside them.
//!
//! Records are immutable and content-addressed; membership is expressed only
//! by links, and change is announced through signal envelopes. This crate
//! holds the decisions: which identifiers are well formed, which host call
//! is due next when a space is created or a marker attached, which links of
//! a listing are shown, and what is announced to whom. The host itself, its
//! store and its network, is reached by whoever drives these functions.

pub mod error;
pub mod flow;
pub mod ident;
pub mod index;
pub mod link_index;
pub mod record;
pub mod relay;

pub use error::WhereError;
pub use flow::{
    add_where, add_where_next, create_space, create_space_next, multicast_outcome, HostReply,
    SpaceStep, WhereStep,
};
pub use ident::{from_b64, to_b64, HashKind};
pub use index::{
    anchor_link, count_skipped, delete_where, get_spaces_inner, get_spaces_path, get_where,
    get_wheres, get_wheres_inner, Link, LinkRequest, Lookup, Resolved, StoredSpace,
};
pub use link_index::LinkIndex;
pub use record::{Space, SpaceOutput, Where, WhereInput, WhereOutput};
pub use relay::{
    init, new_space_signal, notify, CapAccess, CapGrant, Message, Multicast, NotifyInput,
    SignalPayload,
};
