use ident_match::entry::Entry;
use ident_match::ident::Ident;
use ident_match::matchable::Matchable;
use ident_match::pattern::Regex;

fn idents() -> Vec<Ident> {
    vec![
        Ident::Name("alpha".to_string()),
        Ident::Name("beta".to_string()),
        Ident::Pattern(Regex::new("alp.*").unwrap()),
    ]
}

#[test]
fn name_and_pattern_match_together_in_order() {
    let ids = idents();
    let found = ids.matched("alpha");
    assert_eq!(found.len(), 2);
    assert!(std::ptr::eq(found[0], &ids[0]));
    assert!(std::ptr::eq(found[1], &ids[2]));
}

#[test]
fn only_the_pattern_matches_what_it_alone_covers() {
    let ids = idents();
    let found = ids.matched("alpine");
    assert_eq!(found.len(), 1);
    assert!(std::ptr::eq(found[0], &ids[2]));
}

#[test]
fn nothing_matches_a_stranger() {
    let ids = idents();
    assert!(ids.matched("gamma").is_empty());
    assert!(ids.matched("").is_empty());
}

#[test]
fn nothing_is_found_in_nothing() {
    let ids: Vec<Ident> = Vec::new();
    assert!(ids.matched("alpha").is_empty());
    assert!(ids.matched("").is_empty());
    let entries: Vec<Entry> = Vec::new();
    assert!(entries.matched("alpha").is_empty());
}

#[test]
fn equal_items_are_all_kept() {
    let ids = vec![
        Ident::Name("a".to_string()),
        Ident::Name("a".to_string()),
        Ident::Name("b".to_string()),
        Ident::Name("a".to_string()),
    ];
    let found = ids.matched("a");
    assert_eq!(found.len(), 3);
    assert!(std::ptr::eq(found[0], &ids[0]));
    assert!(std::ptr::eq(found[1], &ids[1]));
    assert!(std::ptr::eq(found[2], &ids[3]));
}

#[test]
fn records_are_selected_like_identifiers() {
    let entries = vec![
        Entry { name: Some("alpha".to_string()), pattern: None },
        Entry { name: Some("beta".to_string()), pattern: None },
        Entry { name: None, pattern: Some(Regex::new("alp.*").unwrap()) },
    ];
    let found = entries.matched("alpha");
    assert_eq!(found.len(), 2);
    assert!(std::ptr::eq(found[0], &entries[0]));
    assert!(std::ptr::eq(found[1], &entries[2]));
    let found = entries.matched("beta");
    assert_eq!(found.len(), 1);
    assert!(std::ptr::eq(found[0], &entries[1]));
}

#[test]
fn a_slice_is_asked_like_a_vector() {
    let ids = idents();
    let found = ids[1..].matched("alpha");
    assert_eq!(found.len(), 1);
    assert!(std::ptr::eq(found[0], &ids[2]));
}
