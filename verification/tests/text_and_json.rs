use core_lib::json::{get_i64, get_text, Json};
use core_lib::login::{can_compute_expiry, jwt_expiration, token_expiry, DEFAULT_JWT_EXPIRATION};
use core_lib::text::{parse_u64, push_decimal, push_signed_decimal, same_text, strip_underscores};

fn obj(members: Vec<(&str, Json)>) -> Json {
    Json::Object(members.into_iter().map(|(k, v)| (k.to_string(), v)).collect())
}

fn chars(s: &str) -> Vec<char> {
    s.chars().collect()
}

#[test]
fn decimal_rendering() {
    let mut s = String::new();
    push_decimal(&mut s, 0);
    assert_eq!(s, "0");
    let mut s = String::from("n=");
    push_decimal(&mut s, 1234567890);
    assert_eq!(s, "n=1234567890");
    let mut s = String::new();
    push_decimal(&mut s, u64::MAX);
    assert_eq!(s, u64::MAX.to_string());
}

#[test]
fn signed_decimal_rendering() {
    let mut s = String::new();
    push_signed_decimal(&mut s, -42);
    assert_eq!(s, "-42");
    let mut s = String::new();
    push_signed_decimal(&mut s, i64::MIN);
    assert_eq!(s, i64::MIN.to_string());
    let mut s = String::new();
    push_signed_decimal(&mut s, 7);
    assert_eq!(s, "7");
}

#[test]
fn text_comparison() {
    assert!(same_text("login", "login"));
    assert!(!same_text("login", "logout"));
    assert!(!same_text("a", "ab"));
    assert!(same_text("", ""));
}

#[test]
fn u64_parsing_matches_std() {
    for s in ["0", "42", "+7", "", "+", "-1", "12a", "18446744073709551615", "18446744073709551616", "00012"] {
        assert_eq!(parse_u64(&chars(s)), s.parse::<u64>().ok(), "input {:?}", s);
    }
}

#[test]
fn underscores_are_dropped() {
    assert_eq!(strip_underscores("86_400"), chars("86400"));
    assert_eq!(strip_underscores("__"), Vec::<char>::new());
}

#[test]
fn jwt_expiration_setting() {
    assert_eq!(jwt_expiration(None), DEFAULT_JWT_EXPIRATION);
    assert_eq!(jwt_expiration(Some("3_600")), 3600);
    assert_eq!(jwt_expiration(Some("0")), 0);
    assert_eq!(jwt_expiration(Some("soon")), 86400);
    assert_eq!(jwt_expiration(Some("")), 86400);
}

#[test]
fn token_expiry_values() {
    assert_eq!(token_expiry(1_700_000_000, 0), None);
    assert_eq!(token_expiry(1_700_000_000, 86_400), Some(1_700_086_400usize));
    assert!(can_compute_expiry(1_700_000_000, 86_400));
    assert!(!can_compute_expiry(1_700_000_000, u64::MAX / 2));
    assert!(can_compute_expiry(0, 0));
}

#[test]
fn json_member_access() {
    let data = obj(vec![
        ("id", Json::PosInt(5)),
        ("neg", Json::NegInt(-3)),
        ("big", Json::PosInt(u64::MAX)),
        ("name", Json::Str("x".to_string())),
    ]);
    assert_eq!(data.get("id").and_then(|v| v.as_i64()), Some(5));
    assert_eq!(data.get("neg").and_then(|v| v.as_i64()), Some(-3));
    assert_eq!(data.get("big").and_then(|v| v.as_i64()), None);
    assert_eq!(data.get("name").and_then(|v| v.as_str()), Some("x"));
    assert!(data.get("missing").is_none());
    assert!(Json::Array(vec![]).get("id").is_none());
    let some = Some(data);
    assert_eq!(get_i64(&some, "id"), Some(5));
    assert_eq!(get_text(&some, "name"), Some("x".to_string()));
    assert_eq!(get_text(&some, "id"), None);
    assert_eq!(get_i64(&None, "id"), None);
}

#[test]
fn json_take_member() {
    let data = obj(vec![("a", Json::Bool(true)), ("b", Json::PosInt(1))]);
    assert!(matches!(data.take_member("b"), Json::PosInt(1)));
    let data = obj(vec![("a", Json::Bool(true))]);
    assert!(matches!(data.take_member("z"), Json::Null));
    assert!(matches!(Json::Bool(false).take_member("a"), Json::Null));
}

#[test]
fn json_integers() {
    assert!(matches!(Json::from_i64(3), Json::PosInt(3)));
    assert!(matches!(Json::from_i64(-3), Json::NegInt(-3)));
    let single = Json::single("k", Json::Null);
    assert!(matches!(single.get("k"), Some(Json::Null)));
}
