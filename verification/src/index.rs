//! The link index seen from the library: what to link, and which of the
//! links found under a base are shown.

use vstd::prelude::*;
use crate::error::WhereError;
use crate::ident::{decoded, from_b64, hash_text, is_of_kind, to_b64, HashKind};
use crate::record::{Space, SpaceOutput, SpaceOutputView, Where, WhereOutput, WhereOutputView};

verus! {

/// A live link as the index reports it.
#[derive(Clone, Debug)]
pub struct Link {
    /// The identifier the link points at.
    pub target: Vec<u8>,
    /// The mutation that created the link, by which it is removed again.
    pub create_link_hash: Vec<u8>,
    pub tag: Vec<u8>,
    /// The peer who created the link, where the index can tell.
    pub author: Option<Vec<u8>>,
    /// When the link was created, in microseconds of the creator's clock.
    pub timestamp: i64,
}

/// A link to create: from `base` to `target`, under `tag`.
#[derive(Debug)]
pub struct LinkRequest {
    pub base: Vec<u8>,
    pub target: Vec<u8>,
    pub tag: Vec<u8>,
}

/// What resolving the target of a link gave.
#[derive(Debug)]
pub enum Lookup {
    /// The store could not be read.
    Unavailable,
    /// Nothing is stored under the target.
    Missing,
    /// Something is stored there that is not a record.
    NotAnEntry,
    /// A record. The content is `None` where the record is no marker.
    Entry { content: Option<Where> },
}

/// A link together with what its target resolved to.
#[derive(Debug)]
pub struct Resolved {
    pub link: Link,
    pub lookup: Lookup,
}

/// A space loaded from under the anchor, with the raw hash of its content.
#[derive(Debug)]
pub struct StoredSpace {
    pub hash: Vec<u8>,
    pub content: Space,
}

/// What a listing shows for one resolved link: nothing unless the target is
/// a marker and the link's own author is known; then the marker, the link's
/// mutation and the peer who created the link. Who wrote the record that the
/// link points at plays no part: the same marker may be attached by many.
pub open spec fn listed(item: Resolved) -> Option<WhereOutputView> {
    match (item.lookup, item.link.author) {
        (Lookup::Entry { content: Some(entry) }, Some(author)) => Some(
            WhereOutputView {
                entry,
                hash: hash_text(item.link.create_link_hash@),
                author: hash_text(author@),
            },
        ),
        _ => None,
    }
}

/// The listing of a run of resolved links: what each one shows, in the order
/// of the links, with the silent ones left out.
pub open spec fn listing(items: Seq<Resolved>) -> Seq<WhereOutputView>
    decreases items.len(),
{
    if items.len() == 0 {
        Seq::empty()
    } else {
        match listed(items.last()) {
            Some(shown) => listing(items.drop_last()).push(shown),
            None => listing(items.drop_last()),
        }
    }
}

/// Whether the store failed on one of the lookups.
pub open spec fn any_unavailable(items: Seq<Resolved>) -> bool {
    exists|i: int| 0 <= i < items.len() && (#[trigger] items[i]).lookup is Unavailable
}

/// The views of a run of markers.
pub open spec fn where_views(out: Seq<WhereOutput>) -> Seq<WhereOutputView> {
    out.map_values(|o: WhereOutput| o@)
}

/// The views of a run of spaces.
pub open spec fn space_views(out: Seq<SpaceOutput>) -> Seq<SpaceOutputView> {
    out.map_values(|o: SpaceOutput| o@)
}

/// What a listing of spaces shows for one loaded space.
pub open spec fn space_shown(item: StoredSpace) -> SpaceOutputView {
    SpaceOutputView { hash: hash_text(item.hash@), content: item.content }
}

/// The same items in the opposite order.
fn reversed<T>(items: Vec<T>) -> (out: Vec<T>)
    ensures
        out@.len() == items@.len(),
        forall|j: int| 0 <= j < out@.len() ==> out@[j] == items@[items@.len() - 1 - j],
{
    let ghost all = items@;
    let mut items = items;
    let mut out: Vec<T> = Vec::new();
    while items.len() > 0
        invariant
            items@.len() + out@.len() == all.len(),
            forall|j: int| 0 <= j < items@.len() ==> items@[j] == all[j],
            forall|j: int| 0 <= j < out@.len() ==> out@[j] == all[all.len() - 1 - j],
        decreases items@.len(),
    {
        let item = items.pop();
        match item {
            Some(x) => {
                out.push(x);
            },
            None => {},
        }
    }
    out
}

/// The label under which every space is linked.
pub fn get_spaces_path() -> (label: String)
    ensures
        label@ == "spaces"@,
{
    "spaces".to_string()
}

/// The link that puts a new space under the anchor.
pub fn anchor_link(anchor: Vec<u8>, space: Vec<u8>) -> (link: LinkRequest)
    ensures
        link.base == anchor,
        link.target == space,
        link.tag@.len() == 0,
{
    LinkRequest { base: anchor, target: space, tag: Vec::new() }
}

/// The mutation whose link is to be removed. Fails with `Undecodable`
/// exactly when the text names no mutation.
pub fn delete_where(input: &str) -> (r: Result<Vec<u8>, WhereError>)
    ensures
        r is Ok <==> decoded(HashKind::Header, input@) is Some,
        r matches Ok(raw) ==> Some(raw@) == decoded(HashKind::Header, input@) && is_of_kind(
            HashKind::Header,
            raw@,
        ),
        r matches Err(e) ==> e == WhereError::Undecodable,
{
    from_b64(HashKind::Header, input)
}

/// The base under which the markers of a space are linked. Fails with
/// `Undecodable` exactly when the text names no record.
pub fn get_wheres(space: &str) -> (r: Result<Vec<u8>, WhereError>)
    ensures
        r is Ok <==> decoded(HashKind::Entry, space@) is Some,
        r matches Ok(raw) ==> Some(raw@) == decoded(HashKind::Entry, space@) && is_of_kind(
            HashKind::Entry,
            raw@,
        ),
        r matches Err(e) ==> e == WhereError::Undecodable,
{
    from_b64(HashKind::Entry, space)
}

/// The listing of the spaces loaded from under the anchor: one entry for
/// each, in the same order, with its identifier as text.
pub fn get_spaces_inner(entries: Vec<StoredSpace>) -> (spaces: Vec<SpaceOutput>)
    ensures
        space_views(spaces@) == entries@.map_values(|e: StoredSpace| space_shown(e)),
        spaces@.len() == entries@.len(),
{
    let ghost all = entries@;
    let mut rest = reversed(entries);
    let mut spaces: Vec<SpaceOutput> = Vec::new();
    while rest.len() > 0
        invariant
            rest@.len() + spaces@.len() == all.len(),
            forall|j: int| 0 <= j < rest@.len() ==> rest@[j] == all[all.len() - 1 - j],
            forall|j: int| 0 <= j < spaces@.len() ==> (#[trigger] spaces@[j])@ == space_shown(all[j]),
        decreases rest@.len(),
    {
        let item = rest.pop();
        match item {
            Some(e) => {
                let hash = to_b64(&e.hash);
                spaces.push(SpaceOutput { hash, content: e.content });
            },
            None => {},
        }
    }
    assert(space_views(spaces@) =~= all.map_values(|e: StoredSpace| space_shown(e)));
    spaces
}

/// What a direct lookup of a marker comes to.
pub open spec fn fetched(lookup: Lookup) -> Result<Where, WhereError> {
    match lookup {
        Lookup::Unavailable => Err(WhereError::StoreUnavailable),
        Lookup::Missing => Err(WhereError::NotFound),
        Lookup::NotAnEntry => Err(WhereError::NotFound),
        Lookup::Entry { content: None } => Err(WhereError::Undecodable),
        Lookup::Entry { content: Some(entry) } => Ok(entry),
    }
}

/// The marker that a direct lookup found. Unlike a listing, a direct lookup
/// hides nothing: what is not there is `NotFound`, what is there but is no
/// marker is `Undecodable`, and a store that cannot be read is
/// `StoreUnavailable`. No link is asked about: a record is there whether or
/// not anything points at it.
pub fn get_where(lookup: Lookup) -> (r: Result<Where, WhereError>)
    ensures
        r == fetched(lookup),
{
    match lookup {
        Lookup::Unavailable => Err(WhereError::StoreUnavailable),
        Lookup::Missing => Err(WhereError::NotFound),
        Lookup::NotAnEntry => Err(WhereError::NotFound),
        Lookup::Entry { content } => match content {
            Some(entry) => Ok(entry),
            None => Err(WhereError::Undecodable),
        },
    }
}

/// Whatever a listing shows can also be looked up directly, and is the same
/// marker there.
pub proof fn law_listed_marker_can_be_fetched(item: Resolved)
    requires
        listed(item) is Some,
    ensures
        fetched(item.lookup) == Ok::<Where, WhereError>(listed(item).unwrap().entry),
{
}

/// A listing is never longer than the run of links it was made from.
pub proof fn law_listing_is_no_longer_than_links(items: Seq<Resolved>)
    ensures
        listing(items).len() <= items.len(),
    decreases items.len(),
{
    if items.len() > 0 {
        law_listing_is_no_longer_than_links(items.drop_last());
    }
}

/// How many of the links a listing leaves out without a word.
pub open spec fn skipped(items: Seq<Resolved>) -> int {
    items.len() - listing(items).len()
}

/// The number of links that a listing of `resolved` leaves out, for those
/// who want to notice when it grows.
pub fn count_skipped(resolved: &Vec<Resolved>) -> (n: usize)
    ensures
        n == skipped(resolved@),
{
    let mut n: usize = 0;
    let mut i: usize = 0;
    while i < resolved.len()
        invariant
            i <= resolved@.len(),
            n == skipped(resolved@.take(i as int)),
            n <= i,
        decreases resolved@.len() - i,
    {
        proof {
            listing_step(resolved@, i as int);
        }
        let shown = match &resolved[i].lookup {
            Lookup::Entry { content: Some(_) } => resolved[i].link.author.is_some(),
            _ => false,
        };
        if !shown {
            n = n + 1;
        }
        i = i + 1;
    }
    assert(resolved@.take(i as int) =~= resolved@);
    n
}

/// One more link, one more step of the listing.
proof fn listing_step(items: Seq<Resolved>, k: int)
    requires
        0 <= k < items.len(),
    ensures
        listing(items.take(k + 1)) == match listed(items[k]) {
            Some(shown) => listing(items.take(k)).push(shown),
            None => listing(items.take(k)),
        },
{
    assert(items.take(k + 1).drop_last() =~= items.take(k));
    assert(items.take(k + 1).last() == items[k]);
}

/// A link that shows nothing, whether its target is missing or no marker or
/// its own author unknown, adds nothing to a listing and takes nothing from it.
/// A base whose only link is such a one lists nothing.
pub proof fn law_silent_link_is_left_out(items: Seq<Resolved>, item: Resolved)
    requires
        listed(item) is None,
    ensures
        listing(items.push(item)) == listing(items),
        listing(seq![item]) == Seq::<WhereOutputView>::empty(),
{
    assert(items.push(item).drop_last() =~= items);
    assert(seq![item].drop_last() =~= Seq::<Resolved>::empty());
    assert(listing(seq![item].drop_last()) == Seq::<WhereOutputView>::empty());
}

/// A link whose target is missing shows nothing.
pub proof fn law_missing_target_is_silent(link: Link)
    ensures
        listed(Resolved { link, lookup: Lookup::Missing }) is None,
{
}

/// The author that a listing names is the peer who created the link, and
/// no one else: neither the record nor the lookup has a say in it.
pub proof fn law_listed_author_is_the_links(item: Resolved, other: Lookup)
    requires
        listed(item) is Some,
        listed(Resolved { link: item.link, lookup: other }) is Some,
    ensures
        item.link.author is Some,
        listed(item).unwrap().author == hash_text(item.link.author.unwrap()@),
        listed(Resolved { link: item.link, lookup: other }).unwrap().author == listed(
            item,
        ).unwrap().author,
        listed(item).unwrap().hash == hash_text(item.link.create_link_hash@),
{
}

/// The markers listed under a base, from its live links and what each
/// target resolved to. A link whose target is missing or is no marker, or
/// whose own author is not known, is left out without a word; the others
/// keep the order of the links. The listing fails, with `StoreUnavailable`, exactly when the
/// store failed on one of the lookups.
pub fn get_wheres_inner(resolved: Vec<Resolved>) -> (r: Result<Vec<WhereOutput>, WhereError>)
    ensures
        r is Err <==> any_unavailable(resolved@),
        r matches Ok(out) ==> where_views(out@) == listing(resolved@) && out@.len() == listing(
            resolved@,
        ).len(),
        r matches Err(e) ==> e == WhereError::StoreUnavailable,
{
    let ghost all = resolved@;
    let mut rest = reversed(resolved);
    let mut output: Vec<WhereOutput> = Vec::new();
    while rest.len() > 0
        invariant
            all == resolved@,
            rest@.len() <= all.len(),
            forall|j: int| 0 <= j < rest@.len() ==> rest@[j] == all[all.len() - 1 - j],
            forall|i: int| 0 <= i < all.len() - rest@.len() ==> !((#[trigger] all[i]).lookup is Unavailable),
            where_views(output@) == listing(all.take(all.len() - rest@.len())),
        decreases rest@.len(),
    {
        let ghost k = all.len() - rest@.len();
        let ghost before = output@;
        let item = rest.pop();
        proof {
            listing_step(all, k);
        }
        match item {
            Some(Resolved { link, lookup }) => {
                match lookup {
                    Lookup::Unavailable => {
                        assert(all[k].lookup is Unavailable);
                        return Err(WhereError::StoreUnavailable);
                    },
                    Lookup::Entry { content: Some(entry) } => {
                        match link.author {
                            Some(author) => {
                                let hash = to_b64(&link.create_link_hash);
                                let author = to_b64(&author);
                                let shown = WhereOutput { entry, hash, author };
                                output.push(shown);
                                assert(where_views(output@) =~= where_views(before).push(shown@));
                            },
                            None => {},
                        }
                    },
                    _ => {},
                }
            },
            None => {},
        }
    }
    assert(all.take(all.len() as int) =~= all);
    assert(where_views(output@).len() == output@.len());
    Ok(output)
}

} // verus!
