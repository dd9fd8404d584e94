//! The records and the shapes in which they are handed out.

use vstd::prelude::*;
use std::collections::HashMap;

verus! {

/// A named space. Its identity is the hash of its content.
#[derive(Clone, Debug)]
pub struct Space {
    pub name: String,
    pub surface: String,
    /// Free for the user interface to fill.
    pub meta: HashMap<String, String>,
}

/// A marker inside a space. The location is opaque text.
#[derive(Clone, Debug)]
pub struct Where {
    pub location: String,
    /// What the location means in its context.
    pub meta: HashMap<String, String>,
}

/// A space as a listing shows it: its identifier as text, and its content.
#[derive(Clone, Debug)]
pub struct SpaceOutput {
    pub hash: String,
    pub content: Space,
}

pub struct SpaceOutputView {
    pub hash: Seq<char>,
    pub content: Space,
}

impl View for SpaceOutput {
    type V = SpaceOutputView;

    open spec fn view(&self) -> SpaceOutputView {
        SpaceOutputView { hash: self.hash@, content: self.content }
    }
}

/// A marker to attach, and the space to attach it to.
#[derive(Debug)]
pub struct WhereInput {
    pub space: String,
    pub entry: Where,
}

/// A marker as a listing shows it: the record, the mutation that attached
/// it, and the peer who wrote it.
#[derive(Clone, Debug)]
pub struct WhereOutput {
    pub entry: Where,
    pub hash: String,
    pub author: String,
}

pub struct WhereOutputView {
    pub entry: Where,
    pub hash: Seq<char>,
    pub author: Seq<char>,
}

impl View for WhereOutput {
    type V = WhereOutputView;

    open spec fn view(&self) -> WhereOutputView {
        WhereOutputView { entry: self.entry, hash: self.hash@, author: self.author@ }
    }
}

} // verus!
