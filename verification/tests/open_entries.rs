use debugger_ui::open_entries::OpenEntries;
use debugger_ui::open_entry::OpenEntry;
use debugger_ui::text::{rank_text, starts_with, Rank};

fn stored(open: &OpenEntries) -> Vec<OpenEntry> {
    (0..open.len()).map(|i| open.get(i).unwrap().clone()).collect()
}

#[test]
fn toggle_opens_then_closes() {
    let mut open = OpenEntries::new();
    let key = OpenEntry::scope("Locals");
    assert!(!open.is_open(&key));
    open.toggle(&key);
    assert!(open.is_open(&key));
    open.toggle(&key);
    assert!(!open.is_open(&key));
    assert_eq!(open.len(), 0);
}

#[test]
fn toggling_three_times_is_toggling_once() {
    let mut once = OpenEntries::new();
    let mut thrice = OpenEntries::new();
    for open in [&mut once, &mut thrice] {
        open.toggle(&OpenEntry::scope("Globals"));
        open.toggle(&OpenEntry::variable("Locals", "x", 1));
    }
    let key = OpenEntry::variable("Locals", "a", 2);
    once.toggle(&key);
    thrice.toggle(&key);
    thrice.toggle(&key);
    thrice.toggle(&key);
    assert_eq!(stored(&once), stored(&thrice));
    assert!(thrice.is_open(&key));
}

#[test]
fn stored_order_does_not_depend_on_insertion_order() {
    let keys = vec![
        OpenEntry::variable("Locals", "b", 1),
        OpenEntry::scope("Locals"),
        OpenEntry::variable("Globals", "z", 3),
        OpenEntry::variable("Locals", "a", 2),
        OpenEntry::scope("Arguments"),
        OpenEntry::variable("Locals", "a", 1),
    ];
    let mut forward = OpenEntries::new();
    for key in keys.iter() {
        forward.toggle(key);
    }
    let mut backward = OpenEntries::new();
    for key in keys.iter().rev() {
        backward.toggle(key);
    }
    let expected = vec![
        OpenEntry::scope("Arguments"),
        OpenEntry::scope("Locals"),
        OpenEntry::variable("Globals", "z", 3),
        OpenEntry::variable("Locals", "a", 1),
        OpenEntry::variable("Locals", "a", 2),
        OpenEntry::variable("Locals", "b", 1),
    ];
    assert_eq!(stored(&forward), expected);
    assert_eq!(stored(&backward), expected);
    assert_eq!(forward.get(6), None);
}

#[test]
fn rank_agrees_with_the_derived_order() {
    let keys = vec![
        OpenEntry::scope(""),
        OpenEntry::scope("Locals"),
        OpenEntry::scope("Local"),
        OpenEntry::scope("locals"),
        OpenEntry::scope("Ärger"),
        OpenEntry::variable("", "", 0),
        OpenEntry::variable("Locals", "x", 0),
        OpenEntry::variable("Locals", "x", 1),
        OpenEntry::variable("Locals", "y", 0),
        OpenEntry::variable("Globals", "y", 7),
        OpenEntry::variable("Locals", "é", 2),
        OpenEntry::variable("Locals", "z\u{10000}", 2),
        OpenEntry::variable("Locals", "z\u{ffff}", 2),
    ];
    for a in keys.iter() {
        for b in keys.iter() {
            let expected = match a.cmp(b) {
                std::cmp::Ordering::Less => Rank::Before,
                std::cmp::Ordering::Equal => Rank::Same,
                std::cmp::Ordering::Greater => Rank::After,
            };
            assert_eq!(a.rank(b), expected, "{:?} against {:?}", a, b);
            assert_eq!(a.same(b), a == b);
        }
    }
}

#[test]
fn text_is_ranked_by_code_point() {
    assert_eq!(rank_text("", ""), Rank::Same);
    assert_eq!(rank_text("", "a"), Rank::Before);
    assert_eq!(rank_text("a", ""), Rank::After);
    assert_eq!(rank_text("abc", "abd"), Rank::Before);
    assert_eq!(rank_text("abc", "ab"), Rank::After);
    assert_eq!(rank_text("Z", "a"), Rank::Before);
    assert_eq!(rank_text("\u{ffff}", "\u{10000}"), Rank::Before);
}

#[test]
fn prefixes_are_found() {
    assert!(starts_with("icons/file_icons/rust.svg", "icons/file_icons"));
    assert!(starts_with("abc", ""));
    assert!(starts_with("abc", "abc"));
    assert!(!starts_with("ab", "abc"));
    assert!(!starts_with("icons/file-icons", "icons/file_icons"));
}
