use backeum::collection::fee_cut;
use backeum::dates::Date;
use backeum::text::{two_digit_string, u128_to_string};
use backeum::util::{
    generate_created_string, generate_creator_url, generate_membership_url, generate_profile_url,
    generate_trophy_url, parse_created_string,
};

fn date(year: u32, month: u8, day: u8) -> Date {
    Date { year, month, day }
}

#[test]
fn created_string_formats_dates() {
    assert_eq!(generate_created_string(date(1970, 1, 1)), "1970-01-01");
    assert_eq!(generate_created_string(date(2023, 11, 4)), "2023-11-04");
    assert_eq!(generate_created_string(date(999, 12, 31)), "999-12-31");
    assert_eq!(generate_created_string(date(2024, 2, 29)), "2024-02-29");
}

#[test]
fn parse_created_string_round_trips() {
    assert_eq!(
        parse_created_string("2023-11-04".to_string()),
        Some(date(2023, 11, 4))
    );
    assert_eq!(
        parse_created_string("1970-01-01".to_string()),
        Some(date(1970, 1, 1))
    );
    let day = date(2024, 2, 29);
    assert_eq!(parse_created_string(generate_created_string(day)), Some(day));
}

#[test]
fn parse_created_string_rejects_non_canonical_input() {
    // Not the canonical rendering: the month must be zero-padded.
    assert_eq!(parse_created_string("1970-1-01".to_string()), None);
    // Not a calendar day.
    assert_eq!(parse_created_string("2023-02-29".to_string()), None);
    assert_eq!(parse_created_string("2023-13-01".to_string()), None);
    assert_eq!(parse_created_string("2023-00-10".to_string()), None);
    // Not a date at all.
    assert_eq!(parse_created_string("".to_string()), None);
    assert_eq!(parse_created_string("yesterday".to_string()), None);
    assert_eq!(parse_created_string("2023-11-04x".to_string()), None);
}

#[test]
fn url_templates_are_bit_exact() {
    assert_eq!(
        generate_trophy_url(
            "https://h".to_string(),
            150,
            "1970-01-01".to_string(),
            "abc".to_string(),
        ),
        "https://h/nft/collection/abc?donated=150&created=1970-01-01"
    );
    assert_eq!(
        generate_membership_url(
            "https://h".to_string(),
            300,
            "2023-11-04".to_string(),
            "kansuler".to_string(),
        ),
        "https://h/nft/membership/kansuler?donated=300&created=2023-11-04"
    );
    assert_eq!(
        generate_creator_url("https://h".to_string(), 0, "1970-01-01".to_string()),
        "https://h/nft/creator?donated=0&created=1970-01-01"
    );
    assert_eq!(
        generate_profile_url("https://h".to_string(), "kansuler".to_string()),
        "https://h/p/kansuler"
    );
}

#[test]
fn numbers_render_in_decimal() {
    assert_eq!(u128_to_string(0), "0");
    assert_eq!(u128_to_string(7), "7");
    assert_eq!(u128_to_string(12345), "12345");
    assert_eq!(u128_to_string(u128::MAX), "340282366920938463463374607431768211455");
    assert_eq!(two_digit_string(0), "00");
    assert_eq!(two_digit_string(7), "07");
    assert_eq!(two_digit_string(12), "12");
}

#[test]
fn fee_cut_is_four_percent_rounded_down() {
    assert_eq!(fee_cut(150), 6);
    assert_eq!(fee_cut(100), 4);
    assert_eq!(fee_cut(83), 3);
    assert_eq!(fee_cut(25), 1);
    assert_eq!(fee_cut(24), 0);
    assert_eq!(fee_cut(0), 0);
}

#[test]
fn date_order_is_chronological() {
    assert!(date(2023, 4, 1).strictly_before(&date(2023, 5, 2)));
    assert!(date(2022, 12, 31).strictly_before(&date(2023, 1, 1)));
    assert!(date(2023, 5, 2).on_or_before(&date(2023, 5, 2)));
    assert!(!date(2023, 5, 2).strictly_before(&date(2023, 5, 2)));
    assert!(!date(2023, 5, 3).on_or_before(&date(2023, 5, 2)));
}

#[test]
fn date_validity_follows_the_calendar() {
    assert!(date(2024, 2, 29).is_valid());
    assert!(!date(2023, 2, 29).is_valid());
    assert!(!date(2100, 2, 29).is_valid());
    assert!(date(2000, 2, 29).is_valid());
    assert!(date(2023, 4, 30).is_valid());
    assert!(!date(2023, 4, 31).is_valid());
    assert!(!date(2023, 0, 1).is_valid());
    assert!(!date(2023, 1, 0).is_valid());
}
