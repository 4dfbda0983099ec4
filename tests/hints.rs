use winterreise::config::{BlacklistedItem, BlacklistedItems};
use winterreise::hints::{assign, is_blacklisted, is_shown, WinRecord};

fn rec(h: u32, d: u32, title: &str, class: &str) -> WinRecord {
    (h, d, title.to_string(), class.to_string())
}

fn inventory() -> Vec<WinRecord> {
    vec![
        rec(1, 0, "Editor", "code"),
        rec(2, 1, "Browser", "web"),
        rec(3, 0, "Terminal", "term"),
    ]
}

fn blacklist(classes: &[&str]) -> BlacklistedItems {
    BlacklistedItems {
        item: classes
            .iter()
            .map(|c| BlacklistedItem { class: c.to_string() })
            .collect(),
    }
}

#[test]
fn desktop_filter_keeps_order() {
    let wins = inventory();
    let (vis, hints) = assign(&wins, Some(0), &blacklist(&[]));
    assert_eq!(vis, vec![0, 2]);
    let handles: Vec<u32> = vis.iter().map(|i| wins[*i].0).collect();
    assert_eq!(handles, vec![1, 3]);
    assert_eq!(hints.len(), 2);
    assert_eq!(hints.get(&0), Some(&1));
    assert_eq!(hints.get(&1), Some(&3));
}

#[test]
fn blacklist_excludes_class() {
    let wins = inventory();
    let (vis, hints) = assign(&wins, None, &blacklist(&["web"]));
    assert_eq!(vis, vec![0, 2]);
    assert_eq!(hints.len(), 2);
    assert_eq!(hints.get(&0), Some(&1));
    assert_eq!(hints.get(&1), Some(&3));
}

#[test]
fn no_filter_lists_everything() {
    let wins = inventory();
    let (vis, hints) = assign(&wins, None, &blacklist(&[]));
    assert_eq!(vis, vec![0, 1, 2]);
    assert_eq!(hints.get(&2), Some(&3));
    assert!(vis.len() <= wins.len());
}

#[test]
fn empty_inventory_gives_nothing() {
    let (vis, hints) = assign(&Vec::new(), None, &blacklist(&["web"]));
    assert!(vis.is_empty());
    assert!(hints.is_empty());
}

#[test]
fn hints_stop_at_twenty_six() {
    let wins: Vec<WinRecord> = (0..30).map(|h| rec(100 + h, 0, "w", "c")).collect();
    let (vis, hints) = assign(&wins, None, &blacklist(&[]));
    assert_eq!(vis.len(), 30);
    assert_eq!(hints.len(), 26);
    assert_eq!(hints.get(&0), Some(&100));
    assert_eq!(hints.get(&25), Some(&125));
    assert_eq!(hints.get(&26), None);
    let mut seen: Vec<u32> = hints.values().cloned().collect();
    seen.sort();
    seen.dedup();
    assert_eq!(seen.len(), 26);
}

#[test]
fn assign_twice_gives_same_result() {
    let wins = inventory();
    let bl = blacklist(&["term"]);
    let first = assign(&wins, Some(0), &bl);
    let second = assign(&wins, Some(0), &bl);
    assert_eq!(first.0, second.0);
    assert_eq!(first.1, second.1);
    assert_eq!(first.0, vec![0]);
}

#[test]
fn blacklist_matches_whole_class() {
    let bl = blacklist(&["web", "term"]);
    assert!(is_blacklisted(&"term".to_string(), &bl));
    assert!(!is_blacklisted(&"ter".to_string(), &bl));
    assert!(!is_blacklisted(&"code".to_string(), &bl));
}

#[test]
fn shown_needs_both_filters() {
    let bl = blacklist(&["web"]);
    assert!(is_shown(&rec(1, 0, "a", "code"), Some(0), &bl));
    assert!(!is_shown(&rec(1, 1, "a", "code"), Some(0), &bl));
    assert!(!is_shown(&rec(1, 0, "a", "web"), None, &bl));
}
