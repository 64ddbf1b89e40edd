use errorinfo::decimal::decimal_string;
use errorinfo::{ErrorInfo, Location};

#[test]
fn decimal_string_writes_small_numbers() {
    assert_eq!(decimal_string(0), "0");
    assert_eq!(decimal_string(7), "7");
    assert_eq!(decimal_string(9), "9");
    assert_eq!(decimal_string(10), "10");
    assert_eq!(decimal_string(42), "42");
    assert_eq!(decimal_string(99), "99");
    assert_eq!(decimal_string(100), "100");
    assert_eq!(decimal_string(1000), "1000");
    assert_eq!(decimal_string(1203), "1203");
}

#[test]
fn decimal_string_writes_the_largest_number() {
    assert_eq!(decimal_string(u32::MAX), "4294967295");
    assert_eq!(decimal_string(u32::MAX - 1), "4294967294");
    assert_eq!(decimal_string(4_000_000_000), "4000000000");
}

#[test]
fn decimal_string_agrees_with_std() {
    for n in 0..20_000u32 {
        assert_eq!(decimal_string(n), format!("{}", n));
    }
    let mut n: u32 = 1;
    for _ in 0..31 {
        n = n * 2;
        assert_eq!(decimal_string(n), format!("{}", n));
        assert_eq!(decimal_string(n - 1), format!("{}", n - 1));
    }
}

#[test]
fn location_is_shown_with_its_three_parts() {
    let location = Location {
        file: "src/lib.rs".to_string(),
        line: 57,
        column: 9,
    };
    assert_eq!(
        location.to_string(),
        "file: src/lib.rs, line: 57, column: 9"
    );
}

#[test]
fn location_text_at_the_edges() {
    let location = Location {
        file: String::new(),
        line: 0,
        column: u32::MAX,
    };
    assert_eq!(location.to_string(), "file: , line: 0, column: 4294967295");
}

#[test]
fn location_text_matches_the_format_string() {
    for (file, line, column) in [("a.rs", 1u32, 1u32), ("dir/ü.rs", 120, 33), ("x", 99999, 7)] {
        let location = Location {
            file: file.to_string(),
            line,
            column,
        };
        assert_eq!(
            location.to_string(),
            format!("file: {}, line: {}, column: {}", file, line, column)
        );
    }
}

#[test]
fn error_info_is_shown_with_identifier_and_location() {
    let info = ErrorInfo::new("abc-123".to_string(), "src/db.rs", 210, 17);
    assert_eq!(
        info.to_string(),
        "errorid: abc-123, location: (file: src/db.rs, line: 210, column: 17)"
    );
}

#[test]
fn captured_error_info_is_shown_with_its_own_identifier() {
    let info = ErrorInfo::errorinfo("src/db.rs", 5, 1);
    assert_eq!(
        info.to_string(),
        format!(
            "errorid: {}, location: (file: src/db.rs, line: 5, column: 1)",
            info.errorid
        )
    );
}
