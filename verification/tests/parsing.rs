//! Filters, parsers, labels and timers on concrete values.

use rushcargo_app::common::{Bank, GetDBErr, PackageData, Screen, ShippingGuideData, SubScreen, Timer};
use rushcargo_app::filters::{admits, parse_i32, parse_i64, parse_money_cents, InputBlacklist};
use rushcargo_app::common::PaymentData;

fn chars(s: &str) -> Vec<char> {
    s.chars().collect()
}

#[test]
fn money_filter_accepts_second_decimal_digit() {
    assert!(admits(&chars("12.3"), '4', InputBlacklist::Money));
}

#[test]
fn money_filter_rejects_third_decimal_digit() {
    assert!(!admits(&chars("12.34"), '5', InputBlacklist::Money));
}

#[test]
fn money_filter_rejects_second_dot() {
    assert!(!admits(&chars("12.3"), '.', InputBlacklist::Money));
    assert!(!admits(&chars("."), '.', InputBlacklist::Money));
}

#[test]
fn money_filter_rejects_letters() {
    assert!(!admits(&chars("12"), 'x', InputBlacklist::Money));
    assert!(admits(&chars("12"), '.', InputBlacklist::Money));
    assert!(admits(&chars(""), '7', InputBlacklist::Money));
}

#[test]
fn alphabetic_filter_admits_letters_and_space() {
    assert!(admits(&chars(""), 'a', InputBlacklist::Alphabetic));
    assert!(admits(&chars(""), 'Z', InputBlacklist::Alphabetic));
    assert!(admits(&chars(""), ' ', InputBlacklist::Alphabetic));
    assert!(!admits(&chars(""), '7', InputBlacklist::Alphabetic));
    assert!(!admits(&chars(""), '.', InputBlacklist::Alphabetic));
}

#[test]
fn alphabetic_filter_admits_letters_beyond_ascii() {
    assert!(admits(&chars("Jos"), 'é', InputBlacklist::Alphabetic));
    assert!(admits(&chars(""), 'ß', InputBlacklist::Alphabetic));
    assert!(admits(&chars(""), 'Ω', InputBlacklist::Alphabetic));
}

#[test]
fn digit_filters_read_ascii_digits_only() {
    // Deliberate: these buffers feed the base-ten parsers, which read the
    // ASCII digits; other numeric characters stop at the filter.
    assert!(!admits(&chars(""), '٣', InputBlacklist::Numeric));
    assert!(!admits(&chars("1"), '٣', InputBlacklist::Money));
}

#[test]
fn no_space_filter_rejects_space_only() {
    assert!(!admits(&chars(""), ' ', InputBlacklist::NoSpace));
    assert!(admits(&chars(""), '!', InputBlacklist::NoSpace));
}

#[test]
fn numeric_filter_admits_digits_only() {
    assert!(admits(&chars(""), '0', InputBlacklist::Numeric));
    assert!(admits(&chars(""), '9', InputBlacklist::Numeric));
    assert!(!admits(&chars(""), 'a', InputBlacklist::Numeric));
    assert!(!admits(&chars(""), '.', InputBlacklist::Numeric));
}

#[test]
fn unfiltered_input_admits_everything() {
    assert!(admits(&chars(""), '#', InputBlacklist::NoFilter));
}

#[test]
fn parse_i64_reads_decimal() {
    assert_eq!(parse_i64(&chars("123")), Some(123));
    assert_eq!(parse_i64(&chars("0")), Some(0));
    assert_eq!(parse_i64(&chars("")), None);
    assert_eq!(parse_i64(&chars("12a")), None);
    assert_eq!(parse_i64(&chars("999999999999999999")), Some(999_999_999_999_999_999));
    assert_eq!(parse_i64(&chars("1000000000000000000")), None);
}

#[test]
fn parse_i32_checks_range() {
    assert_eq!(parse_i32(&chars("2147483647")), Some(i32::MAX));
    assert_eq!(parse_i32(&chars("2147483648")), None);
    assert_eq!(parse_i32(&chars("19")), Some(19));
}

#[test]
fn money_buffers_parse_to_cents() {
    assert_eq!(parse_money_cents(&chars("12.34")), Some(1234));
    assert_eq!(parse_money_cents(&chars("12.3")), Some(1230));
    assert_eq!(parse_money_cents(&chars("12.")), Some(1200));
    assert_eq!(parse_money_cents(&chars("12")), Some(1200));
    assert_eq!(parse_money_cents(&chars(".5")), Some(50));
    assert_eq!(parse_money_cents(&chars("0.05")), Some(5));
    assert_eq!(parse_money_cents(&chars(".")), None);
    assert_eq!(parse_money_cents(&chars("")), None);
    assert_eq!(parse_money_cents(&chars("1.234")), None);
    assert_eq!(parse_money_cents(&chars("1a.2")), None);
}

#[test]
fn payment_draft_from_typed_amount() {
    let p = PaymentData::from_input(&chars("99.99"), String::from("tx-1"), Bank::PayPal);
    let p = p.expect("a well-formed amount must build a draft");
    assert_eq!(p.amount_cents, 9999);
    assert_eq!(p.transaction_id, "tx-1");
    assert!(matches!(p.bank, Bank::PayPal));
    assert!(PaymentData::from_input(&chars("9.9.9"), String::from("tx-2"), Bank::BOFA).is_none());
}

#[test]
fn screen_labels() {
    assert_eq!(Screen::Title.label(), "Title");
    assert_eq!(Screen::Settings.label(), "Settings");
    assert_eq!(Screen::Login.label(), "Login");
    assert_eq!(Screen::Client(SubScreen::ClientMain).label(), "Client");
    assert_eq!(Screen::PkgAdmin(SubScreen::PkgAdminMain).label(), "Package Admin");
}

#[test]
fn bank_labels() {
    assert_eq!(Bank::PayPal.label(), "PayPal");
    assert_eq!(Bank::BOFA.label(), "BOFA");
    assert_eq!(Bank::AmazonPay.label(), "AmazonPay");
}

#[test]
fn db_error_labels_are_distinct_messages() {
    let all = [
        GetDBErr::LockerSameAsActive.label(),
        GetDBErr::InvalidUserLocker.label(),
        GetDBErr::LockerTooManyPackages.label(),
        GetDBErr::LockerWeightTooBig(600_000).label(),
        GetDBErr::InvalidUserBranch.label(),
        GetDBErr::InvalidUserDelivery(1).label(),
        GetDBErr::NoCompatBranchDelivery.label(),
    ];
    for (i, a) in all.iter().enumerate() {
        assert!(!a.is_empty());
        for b in all.iter().skip(i + 1) {
            assert_ne!(a, b);
        }
    }
}

#[test]
fn timer_due_after_full_tick() {
    let t = Timer { counter: 0, tick_rate_ms: 250, last_update_ms: 1000 };
    assert!(!t.due(1100));
    assert!(t.due(1250));
    assert!(t.due(2000));
    assert!(!t.due(900));
}

#[test]
fn package_list_view_default_is_empty() {
    let d = PackageData::default();
    assert!(d.viewing_packages.is_empty());
    assert_eq!(d.viewing_packages_idx, 0);
    assert!(d.selected_packages.is_none());
    assert!(d.active_package.is_none());
}

#[test]
fn guide_list_view_default_is_empty() {
    let d = ShippingGuideData::default();
    assert!(d.viewing_guides.is_empty());
    assert_eq!(d.viewing_guides_idx, 0);
    assert!(d.active_guide.is_none());
    assert!(d.active_guide_payment.is_none());
}
