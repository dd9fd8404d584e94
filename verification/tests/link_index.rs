use where_zome::{get_wheres_inner, Link, LinkIndex, Lookup, Resolved, Where, WhereError};

const HEADER_TEXT: &str = "uhCkkWCsAgoKkkfwyJAglj30xX_GLLV-3BXuFy436a2SqpcEwyBzm";
const OTHER_HEADER_TEXT: &str = "uhCkkdwAAuHr_AKFTzF2vjvVzlkWTOxdAhqZ00jcBe9GZQs77BSjQ";
const AGENT_TEXT: &str = "uhCAkJCuynkgVdMn_bzZ2ZYaVfygkn0WCuzfFspczxFnZM1QAyXoo";

fn mutation() -> Vec<u8> {
    vec![
        132, 41, 36, 88, 43, 0, 130, 130, 164, 145, 252, 50, 36, 8, 37, 143, 125, 49, 95, 241,
        139, 45, 95, 183, 5, 123, 133, 203, 141, 250, 107, 100, 170, 165, 193, 48, 200, 28, 230,
    ]
}

fn other_mutation() -> Vec<u8> {
    vec![
        132, 41, 36, 119, 0, 0, 184, 122, 255, 0, 161, 83, 204, 93, 175, 142, 245, 115, 150, 69,
        147, 59, 23, 64, 134, 166, 116, 210, 55, 1, 123, 209, 153, 66, 206, 251, 5, 40, 208,
    ]
}

fn agent() -> Vec<u8> {
    vec![
        132, 32, 36, 36, 43, 178, 158, 72, 21, 116, 201, 255, 111, 54, 118, 101, 134, 149, 127,
        40, 36, 159, 69, 130, 187, 55, 197, 178, 151, 51, 196, 89, 217, 51, 84, 0, 201, 122, 40,
    ]
}

fn base() -> Vec<u8> {
    vec![1, 1, 1]
}

fn other_base() -> Vec<u8> {
    vec![2, 2, 2]
}

fn link(mutation: Vec<u8>, target: u8) -> Link {
    Link {
        target: vec![target],
        create_link_hash: mutation,
        tag: Vec::new(),
        author: Some(agent()),
        timestamp: 7,
    }
}

fn serial(n: u8) -> Vec<u8> {
    vec![n; 39]
}

fn mutations(index: &LinkIndex, base: &Vec<u8>) -> Vec<Vec<u8>> {
    index.list(base).into_iter().map(|l| l.create_link_hash.clone()).collect()
}

fn listing(index: &LinkIndex, base: &Vec<u8>) -> Vec<(String, String)> {
    let resolved = index
        .list(base)
        .into_iter()
        .map(|l| Resolved {
            link: l.clone(),
            lookup: Lookup::Entry {
                content: Some(Where { location: "{}".to_string(), meta: Default::default() }),
            },
        })
        .collect();
    get_wheres_inner(resolved).unwrap().into_iter().map(|o| (o.hash, o.author)).collect()
}

#[test]
fn a_new_index_lists_nothing() {
    let index = LinkIndex::new();
    assert_eq!(index.len(), 0);
    assert!(index.list(&base()).is_empty());
    assert!(!index.knows(&mutation()));
}

#[test]
fn every_attach_is_listed_under_its_mutation() {
    let mut index = LinkIndex::new();
    assert!(index.attach(base(), link(mutation(), 7)));
    assert!(index.attach(base(), link(other_mutation(), 7)));
    assert_eq!(mutations(&index, &base()), vec![mutation(), other_mutation()]);
    assert!(index.knows(&mutation()));
}

#[test]
fn a_mutation_creates_one_link_only() {
    let mut index = LinkIndex::new();
    assert!(index.attach(base(), link(mutation(), 7)));
    assert!(!index.attach(other_base(), link(mutation(), 8)));
    assert_eq!(index.len(), 1);
    assert!(index.list(&other_base()).is_empty());
}

#[test]
fn as_many_links_are_listed_as_were_attached() {
    let mut index = LinkIndex::new();
    for n in 0..5u8 {
        assert!(index.attach(base(), link(serial(n), n)));
    }
    assert!(index.attach(other_base(), link(serial(9), 9)));
    assert_eq!(mutations(&index, &base()), (0..5u8).map(serial).collect::<Vec<_>>());
    assert_eq!(mutations(&index, &other_base()), vec![serial(9)]);
    assert_eq!(index.len(), 6);
}

#[test]
fn detach_removes_the_link_from_the_listing() {
    let mut index = LinkIndex::new();
    index.attach(base(), link(mutation(), 7));
    let before = listing(&index, &base());
    assert_eq!(before, vec![(HEADER_TEXT.to_string(), AGENT_TEXT.to_string())]);
    index.attach(base(), link(other_mutation(), 8));
    assert_eq!(listing(&index, &base()).len(), 2);
    index.detach(&other_mutation());
    assert_eq!(listing(&index, &base()), before);
    assert_eq!(index.len(), 2);
    assert!(index.knows(&other_mutation()));
}

#[test]
fn removal_by_text_removes_the_link_named() {
    let mut index = LinkIndex::new();
    index.attach(base(), link(mutation(), 7));
    index.attach(base(), link(other_mutation(), 8));
    assert_eq!(index.remove(HEADER_TEXT), Ok(()));
    assert_eq!(
        listing(&index, &base()),
        vec![(OTHER_HEADER_TEXT.to_string(), AGENT_TEXT.to_string())]
    );
}

#[test]
fn removal_by_malformed_text_changes_nothing() {
    let mut index = LinkIndex::new();
    index.attach(base(), link(mutation(), 7));
    assert_eq!(index.remove(AGENT_TEXT), Err(WhereError::Undecodable));
    assert_eq!(index.remove("no such thing"), Err(WhereError::Undecodable));
    assert_eq!(mutations(&index, &base()), vec![mutation()]);
}

#[test]
fn detach_twice_is_detach_once() {
    let mut index = LinkIndex::new();
    index.attach(base(), link(mutation(), 7));
    index.attach(base(), link(other_mutation(), 8));
    assert_eq!(index.remove(OTHER_HEADER_TEXT), Ok(()));
    let once = listing(&index, &base());
    assert_eq!(index.remove(OTHER_HEADER_TEXT), Ok(()));
    index.detach(&other_mutation());
    assert_eq!(listing(&index, &base()), once);
    assert_eq!(index.len(), 2);
}

#[test]
fn detach_of_an_unknown_mutation_changes_nothing() {
    let mut index = LinkIndex::new();
    index.attach(base(), link(mutation(), 7));
    index.detach(&other_mutation());
    assert_eq!(index.remove(OTHER_HEADER_TEXT), Ok(()));
    assert_eq!(mutations(&index, &base()), vec![mutation()]);
    assert_eq!(index.len(), 1);
}

#[test]
fn links_under_another_base_are_not_listed() {
    let mut index = LinkIndex::new();
    index.attach(other_base(), link(mutation(), 7));
    assert!(index.list(&base()).is_empty());
    assert!(index.list(&vec![2, 2]).is_empty());
}
