use arxiv::archive::COMPSCI_TABLE;
use arxiv::date::{month_name, month_number, parse_date};
use arxiv::order::{rank, search, Rank};
use arxiv::text::{
    chars_of, decimal_string, digit_of, digit_text, digits_between, find_from, is_ascii_alphabetic,
    is_ascii_digit, same_text, small_number, two_digit_string,
};
use arxiv::Date;

fn chars(s: &str) -> Vec<char> {
    s.chars().collect()
}

#[test]
fn characters_of_a_text() {
    assert_eq!(chars_of(""), Vec::<char>::new());
    assert_eq!(chars_of("cs.LG"), vec!['c', 's', '.', 'L', 'G']);
    assert_eq!(chars_of("é1"), vec!['é', '1']);
}

#[test]
fn character_classes() {
    for c in '0'..='9' {
        assert!(is_ascii_digit(c));
        assert!(!is_ascii_alphabetic(c));
        assert_eq!(digit_of(c) as u32, c.to_digit(10).unwrap());
    }
    for c in ['a', 'z', 'A', 'Z', 'm'] {
        assert!(is_ascii_alphabetic(c));
        assert!(!is_ascii_digit(c));
    }
    for c in ['/', ':', '@', '[', '`', '{', ' ', 'é', '٣'] {
        assert!(!is_ascii_alphabetic(c));
        assert!(!is_ascii_digit(c));
    }
}

#[test]
fn comparing_with_a_word() {
    assert!(same_text(&chars("astro-ph"), "astro-ph"));
    assert!(!same_text(&chars("astro-ph"), "astro-pH"));
    assert!(!same_text(&chars("astro-ph"), "astro-p"));
    assert!(!same_text(&chars("astro"), "astro-ph"));
    assert!(same_text(&chars(""), ""));
}

#[test]
fn runs_of_digits() {
    let v = chars("ab123c");
    assert!(digits_between(&v, 2, 5));
    assert!(digits_between(&v, 3, 3));
    assert!(!digits_between(&v, 1, 5));
    assert!(!digits_between(&v, 2, 6));
    assert_eq!(small_number(&v, 2, 5), Some(123));
    assert_eq!(small_number(&v, 2, 2), Some(0));
    assert_eq!(small_number(&chars("255"), 0, 3), Some(255));
    assert_eq!(small_number(&chars("256"), 0, 3), None);
    assert_eq!(small_number(&chars("0000000255"), 0, 10), Some(255));
    assert_eq!(small_number(&chars("99999999999999999999999"), 0, 23), None);
}

#[test]
fn finding_a_character() {
    let v = chars("a b c");
    assert_eq!(find_from(&v, ' ', 0), 1);
    assert_eq!(find_from(&v, ' ', 1), 1);
    assert_eq!(find_from(&v, ' ', 2), 3);
    assert_eq!(find_from(&v, ' ', 4), 5);
    assert_eq!(find_from(&v, ' ', 5), 5);
    assert_eq!(find_from(&v, 'x', 0), 5);
}

#[test]
fn writing_numbers() {
    for d in 0..=9u8 {
        assert_eq!(digit_text(d), d.to_string());
    }
    for n in 0..=255u8 {
        assert_eq!(decimal_string(n), n.to_string());
    }
    for n in 0..=99u8 {
        assert_eq!(two_digit_string(n), format!("{n:02}"));
    }
}

#[test]
fn lexicographic_rank() {
    assert_eq!(rank(&chars("AI"), &chars("AR")), Rank::Before);
    assert_eq!(rank(&chars("AR"), &chars("AI")), Rank::After);
    assert_eq!(rank(&chars("AI"), &chars("AI")), Rank::Same);
    assert_eq!(rank(&chars("A"), &chars("AI")), Rank::Before);
    assert_eq!(rank(&chars("AI"), &chars("A")), Rank::After);
    assert_eq!(rank(&chars(""), &chars("")), Rank::Same);
    assert_eq!(rank(&chars(""), &chars("a")), Rank::Before);
    assert_eq!(rank(&chars("atm-clus"), &chars("atom-ph")), Rank::Before);
}

#[test]
fn search_in_a_sorted_table() {
    for entry in COMPSCI_TABLE {
        assert!(search(&COMPSCI_TABLE, &chars(entry)));
    }
    assert!(!search(&COMPSCI_TABLE, &chars("")));
    assert!(!search(&COMPSCI_TABLE, &chars("AA")));
    assert!(!search(&COMPSCI_TABLE, &chars("LH")));
    assert!(!search(&COMPSCI_TABLE, &chars("SZ")));
    let one = ["b"];
    assert!(search(&one, &chars("b")));
    assert!(!search(&one, &chars("a")));
    assert!(!search(&one, &chars("c")));
    let none: [&'static str; 0] = [];
    assert!(!search(&none, &chars("a")));
}

#[test]
fn months_by_name_and_number() {
    let names = [
        "Jan", "Feb", "Mar", "Apr", "May", "Jun", "Jul", "Aug", "Sep", "Oct", "Nov", "Dec",
    ];
    for (i, name) in names.iter().enumerate() {
        let month = (i + 1) as i8;
        assert_eq!(month_name(month), *name);
        assert_eq!(month_number(&chars(name)), Some(month));
    }
    assert_eq!(month_number(&chars("jan")), None);
    assert_eq!(month_number(&chars("Zan")), None);
    assert_eq!(month_number(&chars("")), None);
}

#[test]
fn dates_read_from_text() {
    assert_eq!(parse_date("1 Jun 2007"), Date::new(2007, 6, 1));
    assert_eq!(parse_date("31 Dec 9999"), Date::new(9999, 12, 31));
    assert_eq!(parse_date("1 Jan 0000"), Date::new(0, 1, 1));
    assert_eq!(parse_date("31 Jun 2007"), None);
    assert_eq!(parse_date("Jun 1 2007"), None);
    assert_eq!(parse_date(""), None);
    assert!(Date::new(2007, 6, 1).unwrap().is_valid());
}
