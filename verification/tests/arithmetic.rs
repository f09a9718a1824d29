use counter::addresses::{clone_addresses, contains, remove_all};
use counter::decimal::to_decimal;
use counter::state::State;

fn names(list: &[&str]) -> Vec<String> {
    list.iter().map(|name| name.to_string()).collect()
}

#[test]
fn decimal_text_of_integers() {
    assert_eq!("0", to_decimal(0));
    assert_eq!("7", to_decimal(7));
    assert_eq!("10", to_decimal(10));
    assert_eq!("17", to_decimal(17));
    assert_eq!("-5", to_decimal(-5));
    assert_eq!("1000", to_decimal(1000));
    assert_eq!("-120", to_decimal(-120));
    assert_eq!("2147483647", to_decimal(i32::MAX));
    assert_eq!("-2147483648", to_decimal(i32::MIN));
    for n in [-1001, -99, -10, -1, 1, 9, 99, 100, 101, 65536, 1234567890] {
        assert_eq!(format!("{}", n), to_decimal(n));
    }
}

#[test]
fn list_arithmetic() {
    let list = names(&["a", "b", "a", ""]);
    assert!(contains(&list, &"a".to_string()));
    assert!(contains(&list, &"".to_string()));
    assert!(!contains(&list, &"A".to_string()));
    assert!(!contains(&names(&[]), &"a".to_string()));

    assert_eq!(list, clone_addresses(&list));
    assert_eq!(names(&["b", ""]), remove_all(list.clone(), &names(&["a"])));
    assert_eq!(list, remove_all(list.clone(), &names(&["z"])));
    assert_eq!(list, remove_all(list.clone(), &names(&[])));
    assert_eq!(names(&[]), remove_all(list.clone(), &names(&["", "b", "a"])));
    assert_eq!(names(&[]), remove_all(names(&[]), &names(&["a"])));
}

#[test]
fn owner_test_is_exact() {
    let state = State { count: 0, owner: "owner".to_string(), whitelist: vec![] };
    assert!(state.is_owner("owner"));
    assert!(!state.is_owner("owne"));
    assert!(!state.is_owner("owner1"));
    assert!(!state.is_owner("OWNER"));
}

#[test]
fn addresses_are_compared_as_text() {
    let list = names(&["\u{e4}", "a\u{308}", "\u{1f600}", "a"]);
    assert!(contains(&list, &"\u{e4}".to_string()));
    assert!(contains(&list, &"\u{1f600}".to_string()));
    assert!(!contains(&list, &"\u{1f601}".to_string()));
    assert_eq!(
        names(&["\u{e4}", "\u{1f600}", "a"]),
        remove_all(list, &names(&["a\u{308}"]))
    );
}
