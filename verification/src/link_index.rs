//! The link index as this library understands it: an append-only run of
//! links, each created by a mutation of its own and removed only by naming
//! that mutation. Removal is a tombstone; nothing is ever erased.
//!
//! The host keeps the index that peers share. This module says what is
//! expected of any index, in the identifiers and links that the rest of the
//! library handles, proves what follows for the listings made from it, and
//! holds one in memory for where no host is at hand.

use vstd::prelude::*;
use crate::error::WhereError;
use crate::ident::{decoded, HashKind};
use crate::index::{delete_where, listing, space_shown, Link, Lookup, Resolved, StoredSpace};
use crate::record::{Space, SpaceOutputView, WhereOutputView};

verus! {

/// One link under its base.
#[derive(Debug)]
pub struct Slot {
    pub base: Vec<u8>,
    pub link: Link,
}

/// A link under its base, and whether it is still live.
pub struct SlotView {
    pub base: Seq<u8>,
    pub link: Link,
    pub live: bool,
}

/// Whether a link created by `mutation` is in the index, live or not.
pub open spec fn known(s: Seq<SlotView>, mutation: Seq<u8>) -> bool {
    exists|i: int| 0 <= i < s.len() && (#[trigger] s[i]).link.create_link_hash@ == mutation
}

/// The index after `link` was created under `base`.
pub open spec fn attached(s: Seq<SlotView>, base: Seq<u8>, link: Link) -> Seq<SlotView> {
    s.push(SlotView { base, link, live: true })
}

/// The slot after the link created by `mutation` was removed: removed if it
/// is that link, untouched if it is another.
pub open spec fn buried(slot: SlotView, mutation: Seq<u8>) -> SlotView {
    if slot.link.create_link_hash@ == mutation {
        SlotView { live: false, ..slot }
    } else {
        slot
    }
}

/// The index after the link created by `mutation` was removed. A mutation
/// that created no link, or whose link is gone already, changes nothing.
pub open spec fn detached(s: Seq<SlotView>, mutation: Seq<u8>) -> Seq<SlotView> {
    s.map_values(|slot: SlotView| buried(slot, mutation))
}

/// The live links under `base`, oldest first.
pub open spec fn live_under(s: Seq<SlotView>, base: Seq<u8>) -> Seq<Link>
    decreases s.len(),
{
    if s.len() == 0 {
        Seq::empty()
    } else if s.last().live && s.last().base == base {
        live_under(s.drop_last(), base).push(s.last().link)
    } else {
        live_under(s.drop_last(), base)
    }
}

/// The index after the links `links` were created under `base`, in their
/// order.
pub open spec fn attached_all(s: Seq<SlotView>, base: Seq<u8>, links: Seq<Link>) -> Seq<SlotView>
    decreases links.len(),
{
    if links.len() == 0 {
        s
    } else {
        attached(attached_all(s, base, links.drop_last()), base, links.last())
    }
}

/// Each link together with what the store gives for it.
pub open spec fn resolved_with(links: Seq<Link>, lookup: spec_fn(Link) -> Lookup) -> Seq<Resolved> {
    links.map_values(|link: Link| Resolved { link, lookup: lookup(link) })
}

/// The markers listed under `base`, where the store gives `lookup` for each
/// link: the listing of the live links under that base.
pub open spec fn wheres_under(
    s: Seq<SlotView>,
    base: Seq<u8>,
    lookup: spec_fn(Link) -> Lookup,
) -> Seq<WhereOutputView> {
    listing(resolved_with(live_under(s, base), lookup))
}

/// What the listing of spaces shows for one link under the anchor, where
/// the store holds `content` under the link's target.
pub open spec fn space_of(link: Link, content: spec_fn(Seq<u8>) -> Space) -> SpaceOutputView {
    space_shown(StoredSpace { hash: link.target, content: content(link.target@) })
}

/// The spaces listed under `anchor`, where the store holds `content` under
/// each identifier: one for each live link, in the order of the links.
pub open spec fn spaces_under(
    s: Seq<SlotView>,
    anchor: Seq<u8>,
    content: spec_fn(Seq<u8>) -> Space,
) -> Seq<SpaceOutputView> {
    live_under(s, anchor).map_values(|link: Link| space_of(link, content))
}

/// A new link is listed last under its own base, and under no other base.
pub proof fn law_attach_is_listed(s: Seq<SlotView>, base: Seq<u8>, link: Link, other: Seq<u8>)
    ensures
        live_under(attached(s, base, link), base) == live_under(s, base).push(link),
        other != base ==> live_under(attached(s, base, link), other) == live_under(s, other),
{
    assert(attached(s, base, link).drop_last() =~= s);
}

/// After a run of links was created under a base, the live links under it
/// are those that were live before, followed by exactly the new ones in
/// their order: none missing, none extra, however many point at the same
/// target. From an empty index they are exactly the links created.
pub proof fn law_every_attach_is_listed(s: Seq<SlotView>, base: Seq<u8>, links: Seq<Link>)
    ensures
        live_under(attached_all(s, base, links), base) == live_under(s, base) + links,
        live_under(attached_all(s, base, links), base).len() == live_under(s, base).len()
            + links.len(),
    decreases links.len(),
{
    if links.len() > 0 {
        let before = attached_all(s, base, links.drop_last());
        law_every_attach_is_listed(s, base, links.drop_last());
        law_attach_is_listed(before, base, links.last(), base);
        assert((live_under(s, base) + links.drop_last()).push(links.last()) =~= live_under(s, base)
            + links);
    } else {
        assert(live_under(s, base) + links =~= live_under(s, base));
    }
}

/// After a run of spaces was linked under the anchor of an index that held
/// nothing, the listing of spaces has one entry for each of them and no
/// other: as many as were created, each with the text of its identifier and
/// its content, in the order of creation.
pub proof fn law_spaces_created_are_spaces_listed(
    anchor: Seq<u8>,
    links: Seq<Link>,
    content: spec_fn(Seq<u8>) -> Space,
)
    ensures
        spaces_under(attached_all(Seq::empty(), anchor, links), anchor, content)
            == links.map_values(|link: Link| space_of(link, content)),
        spaces_under(attached_all(Seq::empty(), anchor, links), anchor, content).len()
            == links.len(),
{
    law_every_attach_is_listed(Seq::empty(), anchor, links);
    assert(live_under(Seq::<SlotView>::empty(), anchor) + links =~= links);
}

/// Removing a link whose mutation the index does not know changes nothing.
pub proof fn law_unknown_mutation_changes_nothing(s: Seq<SlotView>, mutation: Seq<u8>)
    requires
        !known(s, mutation),
    ensures
        detached(s, mutation) == s,
{
    assert forall|i: int| 0 <= i < s.len() implies buried(#[trigger] s[i], mutation) == s[i] by {
        assert(s[i].link.create_link_hash@ != mutation);
    }
    assert(detached(s, mutation) =~= s);
}

/// Creating a link under a mutation of its own and then removing it by that
/// mutation leaves the index as it was but for one removed link at its end:
/// the live links under every base, and so the markers listed under it
/// whatever the store holds, are what they were before.
pub proof fn law_detach_undoes_attach(
    s: Seq<SlotView>,
    base: Seq<u8>,
    link: Link,
    other: Seq<u8>,
    lookup: spec_fn(Link) -> Lookup,
)
    requires
        !known(s, link.create_link_hash@),
    ensures
        live_under(detached(attached(s, base, link), link.create_link_hash@), other) == live_under(
            s,
            other,
        ),
        wheres_under(detached(attached(s, base, link), link.create_link_hash@), other, lookup)
            == wheres_under(s, other, lookup),
{
    let m = link.create_link_hash@;
    let after = detached(attached(s, base, link), m);
    law_unknown_mutation_changes_nothing(s, m);
    assert(after.drop_last() =~= detached(s, m));
    assert(!after.last().live);
}

/// Removing a link keeps the number of links and the base and content of
/// every one of them. It takes the life of the links that the mutation
/// created and of no other; what a link points at is not the index's to
/// remove.
pub proof fn law_detach_only_buries(s: Seq<SlotView>, mutation: Seq<u8>)
    ensures
        detached(s, mutation).len() == s.len(),
        forall|i: int|
            0 <= i < s.len() ==> {
                let after = #[trigger] detached(s, mutation)[i];
                after.base == s[i].base && after.link == s[i].link && after.live == (s[i].live
                    && s[i].link.create_link_hash@ != mutation)
            },
{
}

/// Once a link is removed, no listing names its mutation.
pub proof fn law_detached_link_is_not_listed(s: Seq<SlotView>, mutation: Seq<u8>, base: Seq<u8>)
    ensures
        forall|i: int|
            0 <= i < live_under(detached(s, mutation), base).len() ==> (#[trigger] live_under(
                detached(s, mutation),
                base,
            )[i]).create_link_hash@ != mutation,
    decreases s.len(),
{
    if s.len() > 0 {
        law_detached_link_is_not_listed(s.drop_last(), mutation, base);
        assert(detached(s, mutation).drop_last() =~= detached(s.drop_last(), mutation));
    }
}

/// Removing a link a second time changes nothing, and so does removing one
/// that is not live: the index, and with it every listing, stays as it is.
pub proof fn law_detach_is_idempotent(s: Seq<SlotView>, mutation: Seq<u8>)
    ensures
        detached(detached(s, mutation), mutation) == detached(s, mutation),
        (forall|i: int|
            0 <= i < s.len() && (#[trigger] s[i]).link.create_link_hash@ == mutation ==> !s[i].live)
            ==> detached(s, mutation) == s,
{
    assert(detached(detached(s, mutation), mutation) =~= detached(s, mutation));
    if forall|i: int|
        0 <= i < s.len() && (#[trigger] s[i]).link.create_link_hash@ == mutation ==> !s[i].live {
        assert forall|i: int| 0 <= i < s.len() implies buried(#[trigger] s[i], mutation)
            == s[i] by {}
        assert(detached(s, mutation) =~= s);
    }
}

/// The index after a removal was asked for by the text of a mutation: the
/// link of that mutation is removed where the text names a mutation, and
/// nothing changes where it names none.
pub open spec fn removed_by_text(s: Seq<SlotView>, text: Seq<char>) -> Seq<SlotView> {
    match decoded(HashKind::Header, text) {
        Some(mutation) => detached(s, mutation),
        None => s,
    }
}

/// Asking twice for the same removal is asking once, and asking for the
/// removal of what is not live changes nothing: neither the index nor any
/// listing made from it.
pub proof fn law_removal_by_text_is_idempotent(
    s: Seq<SlotView>,
    text: Seq<char>,
    base: Seq<u8>,
    lookup: spec_fn(Link) -> Lookup,
)
    ensures
        removed_by_text(removed_by_text(s, text), text) == removed_by_text(s, text),
        wheres_under(removed_by_text(removed_by_text(s, text), text), base, lookup) == wheres_under(
            removed_by_text(s, text),
            base,
            lookup,
        ),
{
    if let Some(mutation) = decoded(HashKind::Header, text) {
        law_detach_is_idempotent(s, mutation);
    }
}

/// A link attached under a mutation of its own, and then removed by the text
/// that names that mutation, is gone from the listing of its space, and the
/// listing is what it was before the link was attached.
pub proof fn law_removal_by_text_undoes_attach(
    s: Seq<SlotView>,
    base: Seq<u8>,
    link: Link,
    text: Seq<char>,
    lookup: spec_fn(Link) -> Lookup,
)
    requires
        !known(s, link.create_link_hash@),
        decoded(HashKind::Header, text) == Some(link.create_link_hash@),
    ensures
        wheres_under(removed_by_text(attached(s, base, link), text), base, lookup) == wheres_under(
            s,
            base,
            lookup,
        ),
{
    law_detach_undoes_attach(s, base, link, base, lookup);
}

/// An index held in memory.
#[derive(Debug)]
pub struct LinkIndex {
    slots: Vec<Slot>,
    live: Vec<bool>,
}

impl View for LinkIndex {
    type V = Seq<SlotView>;

    closed spec fn view(&self) -> Seq<SlotView> {
        Seq::new(
            self.slots@.len(),
            |i: int|
                SlotView {
                    base: self.slots@[i].base@,
                    link: self.slots@[i].link,
                    live: self.live@[i],
                },
        )
    }
}

/// Whether two runs of bytes are the same.
fn same_bytes(a: &Vec<u8>, b: &Vec<u8>) -> (same: bool)
    ensures
        same == (a@ == b@),
{
    if a.len() != b.len() {
        return false;
    }
    let mut i: usize = 0;
    while i < a.len()
        invariant
            i <= a@.len(),
            a@.len() == b@.len(),
            forall|j: int| 0 <= j < i ==> a@[j] == b@[j],
        decreases a@.len() - i,
    {
        if a[i] != b[i] {
            return false;
        }
        i = i + 1;
    }
    assert(a@ =~= b@);
    true
}

impl LinkIndex {
    /// Every link has its liveness recorded.
    pub closed spec fn wf(&self) -> bool {
        self.slots@.len() == self.live@.len()
    }

    /// The index without links.
    pub fn new() -> (index: Self)
        ensures
            index.wf(),
            index@ == Seq::<SlotView>::empty(),
    {
        let index = LinkIndex { slots: Vec::new(), live: Vec::new() };
        assert(index@ =~= Seq::<SlotView>::empty());
        index
    }

    /// The number of links ever created.
    pub fn len(&self) -> (n: usize)
        requires
            self.wf(),
        ensures
            n == self@.len(),
    {
        self.slots.len()
    }

    /// Whether a link created by `mutation` is in the index, live or not.
    pub fn knows(&self, mutation: &Vec<u8>) -> (found: bool)
        requires
            self.wf(),
        ensures
            found == known(self@, mutation@),
    {
        let mut i: usize = 0;
        while i < self.slots.len()
            invariant
                self.wf(),
                i <= self.slots@.len(),
                forall|j: int| 0 <= j < i ==> (#[trigger] self@[j]).link.create_link_hash@ != mutation@,
            decreases self.slots@.len() - i,
        {
            if same_bytes(&self.slots[i].link.create_link_hash, mutation) {
                assert(self@[i as int].link.create_link_hash@ == mutation@);
                return true;
            }
            i = i + 1;
        }
        false
    }

    /// Records the link `link` under `base`. A mutation creates one link:
    /// where the index knows the link's mutation already, it refuses and
    /// stays as it is. Whether the target exists is not asked.
    pub fn attach(&mut self, base: Vec<u8>, link: Link) -> (accepted: bool)
        requires
            old(self).wf(),
        ensures
            final(self).wf(),
            accepted == !known(old(self)@, link.create_link_hash@),
            final(self)@ == if accepted {
                attached(old(self)@, base@, link)
            } else {
                old(self)@
            },
    {
        if self.knows(&link.create_link_hash) {
            return false;
        }
        self.slots.push(Slot { base, link });
        self.live.push(true);
        assert(self@ =~= attached(old(self)@, base@, link));
        true
    }

    /// Removes the link that `mutation` created. Never fails: where there is
    /// no such live link the index stays as it is.
    pub fn detach(&mut self, mutation: &Vec<u8>)
        requires
            old(self).wf(),
        ensures
            final(self).wf(),
            final(self)@ == detached(old(self)@, mutation@),
    {
        let ghost before = self@;
        let ghost lives = self.live@;
        let ghost slots = self.slots@;
        let mut i: usize = 0;
        while i < self.slots.len()
            invariant
                self.slots@ == slots,
                self.live@.len() == slots.len(),
                lives.len() == slots.len(),
                i <= slots.len(),
                forall|j: int|
                    0 <= j < i ==> (#[trigger] self.live@[j]) == (lives[j]
                        && slots[j].link.create_link_hash@ != mutation@),
                forall|j: int| i <= j < slots.len() ==> (#[trigger] self.live@[j]) == lives[j],
            decreases slots.len() - i,
        {
            let ghost earlier = self.live@;
            if same_bytes(&self.slots[i].link.create_link_hash, mutation) {
                self.live.set(i, false);
            }
            assert(forall|j: int| 0 <= j < slots.len() && j != i ==> self.live@[j] == earlier[j]);
            assert(self.live@[i as int] == (lives[i as int] && slots[i as int].link.create_link_hash@
                != mutation@));
            i = i + 1;
        }
        assert(self@ =~= detached(before, mutation@));
    }

    /// Removes the link whose mutation `input` names. Fails, with
    /// `Undecodable` and without a change, exactly when the text names no
    /// mutation; a mutation whose link is gone or never was is no failure.
    pub fn remove(&mut self, input: &str) -> (r: Result<(), WhereError>)
        requires
            old(self).wf(),
        ensures
            final(self).wf(),
            final(self)@ == removed_by_text(old(self)@, input@),
            r is Ok <==> decoded(HashKind::Header, input@) is Some,
            r matches Err(e) ==> e == WhereError::Undecodable,
    {
        match delete_where(input) {
            Ok(mutation) => {
                self.detach(&mutation);
                Ok(())
            },
            Err(e) => Err(e),
        }
    }

    /// The live links under `base`, oldest first.
    pub fn list<'a>(&'a self, base: &Vec<u8>) -> (found: Vec<&'a Link>)
        requires
            self.wf(),
        ensures
            found@.map_values(|link: &Link| *link) == live_under(self@, base@),
            found@.len() == live_under(self@, base@).len(),
    {
        let mut found: Vec<&'a Link> = Vec::new();
        let mut i: usize = 0;
        while i < self.slots.len()
            invariant
                self.wf(),
                i <= self.slots@.len(),
                found@.map_values(|link: &Link| *link) == live_under(self@.take(i as int), base@),
            decreases self.slots@.len() - i,
        {
            let ghost before = found@;
            assert(self@.take(i + 1).drop_last() =~= self@.take(i as int));
            assert(self@.take(i + 1).last() == self@[i as int]);
            if self.live[i] && same_bytes(&self.slots[i].base, base) {
                found.push(&self.slots[i].link);
                assert(found@.map_values(|link: &Link| *link) =~= before.map_values(
                    |link: &Link| *link,
                ).push(self@[i as int].link));
            }
            i = i + 1;
        }
        assert(self@.take(i as int) =~= self@);
        assert(found@.map_values(|link: &Link| *link).len() == found@.len());
        found
    }
}

} // verus!
