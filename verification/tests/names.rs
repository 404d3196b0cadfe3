use figgit::names::{compare_names, same_text, NameOrder};

#[test]
fn names_are_ordered_as_strings_are() {
    let names = ["", "a", "ab", "b", "B", "work", "Work", "wörk", "é", "z", "personal", "\u{10000}", "\u{ffff}"];
    for a in names {
        for b in names {
            let expected = if a < b {
                NameOrder::Before
            } else if a == b {
                NameOrder::Same
            } else {
                NameOrder::After
            };
            assert_eq!(compare_names(a, b), expected);
            assert_eq!(same_text(a, b), a == b);
        }
    }
}

#[test]
fn a_prefix_comes_before_the_longer_name() {
    assert_eq!(compare_names("wor", "work"), NameOrder::Before);
    assert_eq!(compare_names("work", "wor"), NameOrder::After);
    assert_eq!(compare_names("", "a"), NameOrder::Before);
    assert_eq!(compare_names("", ""), NameOrder::Same);
    assert_eq!(compare_names("Work", "work"), NameOrder::Before);
}
