use quickreplace::decimal::decimal_text;
use quickreplace::gcd::{gcd, gcd_of_all};
use quickreplace::web::{gcd_reply, ReplyStatus};

#[test]
fn test_gcd() {
    assert_eq!(gcd(14, 15), 1);

    assert_eq!(gcd(2 * 3 * 5 * 11 * 17, 3 * 7 * 11 * 13 * 19), 3 * 11);
}

#[test]
fn gcd_is_symmetric_and_handles_equal_and_one() {
    assert_eq!(gcd(15, 14), 1);
    assert_eq!(gcd(12, 18), 6);
    assert_eq!(gcd(18, 12), 6);
    assert_eq!(gcd(7, 7), 7);
    assert_eq!(gcd(1, u64::MAX), 1);
    assert_eq!(gcd(u64::MAX, u64::MAX), u64::MAX);
}

#[test]
fn gcd_of_list() {
    assert_eq!(gcd_of_all(&vec![]), None);
    assert_eq!(gcd_of_all(&vec![42]), Some(42));
    assert_eq!(gcd_of_all(&vec![24, 60, 36]), Some(12));
    assert_eq!(gcd_of_all(&vec![2 * 3 * 5 * 11 * 17, 3 * 7 * 11 * 13 * 19]), Some(33));
}

#[test]
fn decimal_notation() {
    assert_eq!(decimal_text(0), "0");
    assert_eq!(decimal_text(7), "7");
    assert_eq!(decimal_text(10), "10");
    assert_eq!(decimal_text(907), "907");
    assert_eq!(decimal_text(u64::MAX), "18446744073709551615");
}

#[test]
fn reply_refuses_zero() {
    let r = gcd_reply(0, 5);
    assert_eq!(r.status, ReplyStatus::BadRequest);
    assert_eq!(r.body, "Computing the GCD with zero is boring.");
    let r = gcd_reply(5, 0);
    assert_eq!(r.status, ReplyStatus::BadRequest);
}

#[test]
fn reply_names_numbers_and_divisor() {
    let r = gcd_reply(12, 18);
    assert_eq!(r.status, ReplyStatus::Success);
    assert_eq!(
        r.body,
        "The greatest common divisor of the numbers 12 and 18 is <b>6</b>\n"
    );
}

#[test]
fn lone_number_is_its_own_divisor() {
    assert_eq!(gcd_of_all(&vec![0]), Some(0));
    assert_eq!(gcd_of_all(&vec![9]), Some(9));
}
