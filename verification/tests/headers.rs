//! Header sets: order, case, and merging.

use httper::client::headers::HeaderSet;
use httper::client::name_order::order_of;
use httper::client::name_order::Order;

fn pair(name: &str, value: &str) -> (String, String) {
    (name.to_string(), value.to_string())
}

fn set_of(pairs: &[(&str, &str)]) -> HeaderSet {
    let mut set = HeaderSet::new();
    for (name, value) in pairs {
        set.insert(name, value);
    }
    set
}

#[test]
fn new_set_is_empty() {
    let set = HeaderSet::new();
    assert_eq!(set.len(), 0);
    assert!(set.is_empty());
    assert!(set.entry(0).is_none());
    assert_eq!(set.get("accept"), None);
    assert_eq!(set.pairs(), Vec::new());
}

#[test]
fn names_are_stored_in_lower_case() {
    let mut set = HeaderSet::new();
    set.insert("Content-Type", "application/json");
    assert_eq!(set.pairs(), vec![pair("content-type", "application/json")]);
    assert!(!set.is_empty());
}

#[test]
fn lower_case_is_that_of_unicode() {
    let mut set = HeaderSet::new();
    set.insert("\u{212a}EY", "kelvin");
    set.insert("\u{c9}TAT", "accent");
    assert_eq!(set.pairs(), vec![pair("key", "kelvin"), pair("\u{e9}tat", "accent")]);
    assert_eq!(set.get("KEY").map(|v| v.as_str()), Some("kelvin"));
}

#[test]
fn values_keep_their_case() {
    let mut set = HeaderSet::new();
    set.insert("Accept", "Text/HTML");
    assert_eq!(set.get("accept").map(|v| v.as_str()), Some("Text/HTML"));
}

#[test]
fn get_is_case_insensitive() {
    let set = set_of(&[("Content-Type", "a")]);
    assert_eq!(set.get("content-type").map(|v| v.as_str()), Some("a"));
    assert_eq!(set.get("CONTENT-TYPE").map(|v| v.as_str()), Some("a"));
    assert_eq!(set.get("Content-Type").map(|v| v.as_str()), Some("a"));
    assert_eq!(set.get("content-length"), None);
}

#[test]
fn lookup_takes_the_name_as_it_is() {
    let set = set_of(&[("Content-Type", "a")]);
    assert_eq!(set.lookup("content-type").map(|v| v.as_str()), Some("a"));
    assert_eq!(set.lookup("Content-Type"), None);
}

#[test]
fn put_stores_a_name_in_lower_case_as_it_is() {
    let mut set = HeaderSet::new();
    assert!(set.put("x-b".to_string(), "1".to_string()));
    assert!(set.put("x-a".to_string(), "2".to_string()));
    assert!(set.put("x-b".to_string(), "3".to_string()));
    assert_eq!(set.pairs(), vec![pair("x-a", "2"), pair("x-b", "3")]);
}

#[test]
fn put_leaves_out_a_name_that_is_not_in_lower_case() {
    let mut set = HeaderSet::new();
    assert!(set.put("x-a".to_string(), "1".to_string()));
    assert!(!set.put("X-A".to_string(), "2".to_string()));
    assert!(!set.put("x-B".to_string(), "3".to_string()));
    assert!(!set.put("\u{212a}".to_string(), "4".to_string()));
    assert_eq!(set.pairs(), vec![pair("x-a", "1")]);
    assert!(set.put("".to_string(), "5".to_string()));
    assert!(set.put("\u{e9}".to_string(), "6".to_string()));
    assert_eq!(set.len(), 3);
}

#[test]
fn every_stored_name_is_in_lower_case() {
    let set = set_of(&[("X-B", "1"), ("x-a", "2"), ("X-b", "3"), ("\u{c9}", "4")]);
    assert_eq!(set.pairs(), vec![pair("x-a", "2"), pair("x-b", "3"), pair("\u{e9}", "4")]);
    for (name, _) in set.pairs() {
        assert_eq!(name, name.to_lowercase());
    }
    let merged = HeaderSet::merge(&set, &set_of(&[("X-A", "5")]));
    assert_eq!(merged.pairs(), vec![pair("x-a", "5"), pair("x-b", "3"), pair("\u{e9}", "4")]);
}

#[test]
fn last_value_for_a_name_wins() {
    let mut set = HeaderSet::new();
    set.insert("Accept", "text/html");
    set.insert("ACCEPT", "application/json");
    assert_eq!(set.len(), 1);
    assert_eq!(set.pairs(), vec![pair("accept", "application/json")]);
}

#[test]
fn headers_are_kept_in_the_order_of_their_names() {
    let set = set_of(&[("zeta", "1"), ("alpha", "2"), ("Mu", "3"), ("al", "4"), ("alphabet", "5")]);
    assert_eq!(
        set.pairs(),
        vec![
            pair("al", "4"),
            pair("alpha", "2"),
            pair("alphabet", "5"),
            pair("mu", "3"),
            pair("zeta", "1"),
        ]
    );
    assert_eq!(set.len(), 5);
    let (name, value) = set.entry(3).unwrap();
    assert_eq!((name.as_str(), value.as_str()), ("mu", "3"));
    assert!(set.entry(5).is_none());
}

#[test]
fn many_headers_are_all_found() {
    let mut set = HeaderSet::new();
    for i in 0..40u32 {
        let k = (i * 17) % 40;
        set.insert(&format!("X-Header-{:02}", k), &k.to_string());
    }
    assert_eq!(set.len(), 40);
    for k in 0..40u32 {
        assert_eq!(set.get(&format!("x-header-{:02}", k)), Some(&k.to_string()));
    }
    let pairs = set.pairs();
    for w in pairs.windows(2) {
        assert!(w[0].0 < w[1].0);
    }
}

#[test]
fn from_pairs_inserts_in_turn() {
    let set = HeaderSet::from_pairs(&vec![
        pair("B", "1"),
        pair("a", "2"),
        pair("b", "3"),
    ]);
    assert_eq!(set.pairs(), vec![pair("a", "2"), pair("b", "3")]);
    assert!(HeaderSet::from_pairs(&Vec::new()).is_empty());
}

#[test]
fn clone_holds_the_same_headers() {
    let set = set_of(&[("a", "1"), ("b", "2")]);
    let mut copy = set.clone();
    assert_eq!(copy.pairs(), set.pairs());
    copy.insert("c", "3");
    assert_eq!(set.len(), 2);
    assert_eq!(copy.len(), 3);
}

#[test]
fn merge_overrides_win_and_all_other_headers_stay() {
    let defaults = set_of(&[("user-agent", "lib/1.0"), ("accept", "*/*"), ("x-trace", "off")]);
    let overrides = set_of(&[("Accept", "application/json"), ("authorization", "token")]);
    let merged = HeaderSet::merge(&defaults, &overrides);
    assert_eq!(
        merged.pairs(),
        vec![
            pair("accept", "application/json"),
            pair("authorization", "token"),
            pair("user-agent", "lib/1.0"),
            pair("x-trace", "off"),
        ]
    );
    // The arguments are read, not changed.
    assert_eq!(defaults.len(), 3);
    assert_eq!(overrides.len(), 2);
}

#[test]
fn merge_is_case_insensitive() {
    let defaults = set_of(&[("Content-Type", "a")]);
    let overrides = set_of(&[("content-type", "b")]);
    let merged = HeaderSet::merge(&defaults, &overrides);
    assert_eq!(merged.len(), 1);
    assert_eq!(merged.pairs(), vec![pair("content-type", "b")]);
}

#[test]
fn merge_with_no_overrides_copies_the_defaults() {
    let defaults = set_of(&[("user-agent", "lib/1.0"), ("accept", "*/*")]);
    let merged = HeaderSet::merge(&defaults, &HeaderSet::new());
    assert_eq!(merged.pairs(), defaults.pairs());
}

#[test]
fn merge_with_no_defaults_copies_the_overrides() {
    let overrides = set_of(&[("b", "2"), ("a", "1")]);
    let merged = HeaderSet::merge(&HeaderSet::new(), &overrides);
    assert_eq!(merged.pairs(), vec![pair("a", "1"), pair("b", "2")]);
    assert!(HeaderSet::merge(&HeaderSet::new(), &HeaderSet::new()).is_empty());
}

#[test]
fn merge_keeps_both_sets_of_disjoint_names() {
    let defaults = set_of(&[("user-agent", "lib/1.0")]);
    let overrides = set_of(&[("accept", "application/json")]);
    let merged = HeaderSet::merge(&defaults, &overrides);
    assert_eq!(merged.get("user-agent").map(|v| v.as_str()), Some("lib/1.0"));
    assert_eq!(merged.get("accept").map(|v| v.as_str()), Some("application/json"));
    assert_eq!(merged.len(), 2);
}

#[test]
fn merge_is_the_same_for_the_same_sets() {
    let defaults = set_of(&[("a", "1"), ("c", "3"), ("e", "5")]);
    let overrides = set_of(&[("b", "2"), ("c", "30"), ("f", "6")]);
    let once = HeaderSet::merge(&defaults, &overrides);
    let again = HeaderSet::merge(&defaults, &overrides);
    assert_eq!(once.pairs(), again.pairs());
    assert_eq!(
        once.pairs(),
        vec![pair("a", "1"), pair("b", "2"), pair("c", "30"), pair("e", "5"), pair("f", "6")]
    );
}

#[test]
fn order_of_names() {
    assert_eq!(order_of("accept", "accept"), Order::Same);
    assert_eq!(order_of("accept", "content-type"), Order::Before);
    assert_eq!(order_of("content-type", "accept"), Order::After);
    assert_eq!(order_of("a", "ab"), Order::Before);
    assert_eq!(order_of("ab", "a"), Order::After);
    assert_eq!(order_of("", ""), Order::Same);
    assert_eq!(order_of("", "a"), Order::Before);
    assert_eq!(order_of("Z", "a"), Order::Before);
    assert_eq!(order_of("z", "\u{e9}"), Order::Before);
    assert_eq!(order_of("\u{e9}", "\u{4e2d}"), Order::Before);
    assert_eq!(order_of("\u{1f600}", "\u{4e2d}"), Order::After);
}

#[test]
fn order_of_names_is_the_order_of_strings() {
    let names = ["", "a", "A", "ab", "b", "content-type", "x-\u{e9}", "\u{4e2d}", "~"];
    for a in names.iter() {
        for b in names.iter() {
            let expected = if a < b {
                Order::Before
            } else if a == b {
                Order::Same
            } else {
                Order::After
            };
            assert_eq!(order_of(a, b), expected);
        }
    }
}
