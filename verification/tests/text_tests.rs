use notification_dispatcher::text::{decimal, join};

#[test]
fn decimal_writes_base_ten() {
    assert_eq!(decimal(0), "0");
    assert_eq!(decimal(7), "7");
    assert_eq!(decimal(10), "10");
    assert_eq!(decimal(404), "404");
    assert_eq!(decimal(65535), "65535");
    assert_eq!(decimal(u64::MAX), "18446744073709551615");
}

#[test]
fn decimal_agrees_with_std_formatting() {
    for n in [1u64, 9, 11, 99, 100, 101, 999, 1000, 123456789, 9007199254740993] {
        assert_eq!(decimal(n), format!("{}", n));
    }
}

#[test]
fn join_puts_the_separator_between_neighbours() {
    let none: Vec<String> = vec![];
    assert_eq!(join(&none, ";"), "");
    assert_eq!(join(&vec!["a@x.io".to_string()], ";"), "a@x.io");
    assert_eq!(
        join(&vec!["a@x.io".to_string(), "b@x.io".to_string(), "c@x.io".to_string()], ";"),
        "a@x.io;b@x.io;c@x.io"
    );
    assert_eq!(join(&vec!["".to_string(), "".to_string()], ", "), ", ");
}
