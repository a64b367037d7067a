use pass_tutor::generate_pass_spec;
use pass_tutor::parse_u32;

#[test]
fn default_length_without_argument() {
    let ps = generate_pass_spec(true, false, false, false, None);
    assert_eq!(ps.length, 12);
}

#[test]
fn non_numeric_length_falls_back() {
    let ps = generate_pass_spec(false, false, false, false, Some("abc"));
    assert_eq!(ps.length, 12);
    assert!(ps.symbols && ps.numbers && ps.upper && ps.lower);
}

#[test]
fn numeric_length_is_taken() {
    let ps = generate_pass_spec(true, false, false, false, Some("20"));
    assert_eq!(ps.length, 20);
}

#[test]
fn flags_kept_when_any_is_set() {
    let ps = generate_pass_spec(false, true, false, true, None);
    assert!(!ps.symbols);
    assert!(ps.numbers);
    assert!(!ps.upper);
    assert!(ps.lower);
}

#[test]
fn all_flags_off_enables_every_class() {
    let ps = generate_pass_spec(false, false, false, false, None);
    assert!(ps.symbols && ps.numbers && ps.upper && ps.lower);
}

#[test]
fn parse_plain_numbers() {
    assert_eq!(parse_u32("17"), Some(17));
    assert_eq!(parse_u32("0"), Some(0));
    assert_eq!(parse_u32("007"), Some(7));
}

#[test]
fn parse_leading_plus() {
    assert_eq!(parse_u32("+7"), Some(7));
    assert_eq!(parse_u32("+"), None);
}

#[test]
fn parse_rejects_other_text() {
    assert_eq!(parse_u32(""), None);
    assert_eq!(parse_u32("abc"), None);
    assert_eq!(parse_u32("12a"), None);
    assert_eq!(parse_u32("-3"), None);
    assert_eq!(parse_u32(" 5"), None);
    assert_eq!(parse_u32("1 2"), None);
}

#[test]
fn parse_bounds() {
    assert_eq!(parse_u32("4294967295"), Some(u32::MAX));
    assert_eq!(parse_u32("4294967296"), None);
    assert_eq!(parse_u32("99999999999999999999"), None);
}

#[test]
fn parse_agrees_with_std() {
    let inputs = [
        "", "0", "1", "12", "+12", "++1", "007", "4294967295", "4294967296", "abc", "1e3", "-0",
        " 1", "1 ",
    ];
    for s in inputs {
        assert_eq!(parse_u32(s), s.parse::<u32>().ok(), "input {:?}", s);
    }
}

#[test]
fn overflowing_length_falls_back() {
    let ps = generate_pass_spec(true, false, false, false, Some("4294967296"));
    assert_eq!(ps.length, 12);
}
