use resize_gateway::handler::{Method, Request};
use resize_gateway::query::{Dimension, Query, ValidationError, MAX_DIM};
use resize_gateway::signature::sign;

fn pairs(list: &[(&str, &str)]) -> Vec<(String, String)> {
    list.iter().map(|(k, v)| (k.to_string(), v.to_string())).collect()
}

fn read(list: &[(&str, &str)]) -> Result<Query, ValidationError> {
    Query::parse(&pairs(list), true)
}

#[test]
fn reads_width_and_height() {
    let q = read(&[("width", "100"), ("height", "50")]).unwrap();
    assert_eq!((q.width, q.height), (100, 50));
    assert_eq!(q.token, None);
}

#[test]
fn reads_the_token() {
    let q = read(&[("width", "64"), ("height", "64"), ("token", "deadbeef")]).unwrap();
    assert_eq!(q.token.as_deref(), Some("deadbeef"));
    let q = read(&[("token", ""), ("width", "64"), ("height", "64")]).unwrap();
    assert_eq!(q.token.as_deref(), Some(""));
}

#[test]
fn aliases_read_alike() {
    let short = read(&[("w", "100"), ("h", "200")]).unwrap();
    let long = read(&[("width", "100"), ("height", "200")]).unwrap();
    assert_eq!((short.width, short.height), (100, 200));
    assert_eq!((long.width, long.height), (100, 200));
    assert_eq!(short.full_path(), long.full_path());
    assert_eq!(short.full_path(), "/?width=100&height=200");
    assert_eq!(sign(&short.full_path(), "s3cret"), sign(&long.full_path(), "s3cret"));
}

#[test]
fn order_of_keys_does_not_show_in_the_canonical_form() {
    let a = read(&[("height", "200"), ("token", "x"), ("width", "100")]).unwrap();
    let b = read(&[("w", "100"), ("h", "200")]).unwrap();
    assert_eq!(a.full_path(), b.full_path());
}

#[test]
fn the_last_value_wins() {
    let q = read(&[("width", "1"), ("w", "2"), ("height", "3"), ("h", "4"), ("width", "5")]).unwrap();
    assert_eq!((q.width, q.height), (5, 4));
    let q = read(&[("token", "a"), ("w", "1"), ("h", "1"), ("token", "b")]).unwrap();
    assert_eq!(q.token.as_deref(), Some("b"));
}

#[test]
fn unknown_keys_are_ignored() {
    let q = read(&[("foo", "bar"), ("w", "3"), ("Width", "x"), ("h", "4"), ("", "")]).unwrap();
    assert_eq!((q.width, q.height), (3, 4));
}

#[test]
fn a_strict_reading_asks_for_both_dimensions() {
    assert!(matches!(read(&[]), Err(ValidationError::MissingParameter(Dimension::Width))));
    assert!(matches!(
        read(&[("height", "5")]),
        Err(ValidationError::MissingParameter(Dimension::Width))
    ));
    assert!(matches!(
        read(&[("width", "5")]),
        Err(ValidationError::MissingParameter(Dimension::Height))
    ));
    assert!(matches!(
        read(&[("token", "abc")]),
        Err(ValidationError::MissingParameter(Dimension::Width))
    ));
}

#[test]
fn a_lenient_reading_takes_zero_for_what_is_missing() {
    let q = Query::parse(&pairs(&[]), false).unwrap();
    assert_eq!((q.width, q.height), (0, 0));
    let q = Query::parse(&pairs(&[("h", "9")]), false).unwrap();
    assert_eq!((q.width, q.height), (0, 9));
    assert!(matches!(q.validate(), Err(ValidationError::DegenerateDimension)));
}

#[test]
fn a_value_that_is_no_number_is_reported_with_its_text() {
    match read(&[("width", "abc"), ("height", "5")]) {
        Err(ValidationError::InvalidNumber(Dimension::Width, raw)) => assert_eq!(raw, "abc"),
        other => panic!("{:?}", other),
    }
    match read(&[("width", "5"), ("h", "-1")]) {
        Err(ValidationError::InvalidNumber(Dimension::Height, raw)) => assert_eq!(raw, "-1"),
        other => panic!("{:?}", other),
    }
    match read(&[("w", "4294967296"), ("h", "1")]) {
        Err(ValidationError::InvalidNumber(Dimension::Width, raw)) => assert_eq!(raw, "4294967296"),
        other => panic!("{:?}", other),
    }
    match read(&[("w", ""), ("h", "1")]) {
        Err(ValidationError::InvalidNumber(Dimension::Width, raw)) => assert_eq!(raw, ""),
        other => panic!("{:?}", other),
    }
}

#[test]
fn the_first_bad_value_is_the_one_reported() {
    match read(&[("h", "x"), ("w", "y")]) {
        Err(ValidationError::InvalidNumber(Dimension::Height, raw)) => assert_eq!(raw, "x"),
        other => panic!("{:?}", other),
    }
    match read(&[("w", "bad"), ("w", "5"), ("h", "5")]) {
        Err(ValidationError::InvalidNumber(Dimension::Width, raw)) => assert_eq!(raw, "bad"),
        other => panic!("{:?}", other),
    }
    assert!(matches!(
        read(&[("w", "bad")]),
        Err(ValidationError::InvalidNumber(Dimension::Width, _))
    ));
}

#[test]
fn zero_reads_but_does_not_pass_the_check() {
    let q = read(&[("width", "0"), ("height", "10")]).unwrap();
    assert_eq!((q.width, q.height), (0, 10));
    assert!(matches!(q.validate(), Err(ValidationError::DegenerateDimension)));
    let q = read(&[("width", "10"), ("height", "0")]).unwrap();
    assert!(matches!(q.validate(), Err(ValidationError::DegenerateDimension)));
    let q = read(&[("width", "0"), ("height", "5000")]).unwrap();
    assert!(matches!(q.validate(), Err(ValidationError::DegenerateDimension)));
}

#[test]
fn dimensions_above_the_limit_do_not_pass_the_check() {
    assert_eq!(MAX_DIM, 4096);
    let q = Query { width: 4096, height: 4096, token: None };
    assert!(q.validate().is_ok());
    let q = Query { width: 4097, height: 1, token: None };
    assert!(matches!(q.validate(), Err(ValidationError::DimensionTooLarge)));
    let q = Query { width: 1, height: u32::MAX, token: None };
    assert!(matches!(q.validate(), Err(ValidationError::DimensionTooLarge)));
    let q = Query { width: 1, height: 1, token: None };
    assert!(q.validate().is_ok());
}

#[test]
fn the_canonical_form() {
    let q = Query { width: 100, height: 50, token: Some("zzz".to_string()) };
    assert_eq!(q.full_path(), "/?width=100&height=50");
    let q = Query { width: 0, height: u32::MAX, token: None };
    assert_eq!(q.full_path(), "/?width=0&height=4294967295");
    let q = read(&[("w", "007"), ("h", "+8")]).unwrap();
    assert_eq!(q.full_path(), "/?width=7&height=8");
}

#[test]
fn from_request_reads_strictly() {
    let req = Request {
        method: Method::Get,
        url: "https://example.com/?w=3&h=4".to_string(),
        query: pairs(&[("w", "3"), ("h", "4")]),
    };
    let q = Query::from_request(&req).unwrap();
    assert_eq!((q.width, q.height), (3, 4));
    let req = Request {
        method: Method::Get,
        url: "https://example.com/".to_string(),
        query: vec![],
    };
    assert!(matches!(
        Query::from_request(&req),
        Err(ValidationError::MissingParameter(Dimension::Width))
    ));
}

#[test]
fn verify_token_accepts_the_signature() {
    let token = "0ad43caf2be1a5fe909ad4736ac46af2cdfcbdedcf2f3dbeb56d2a1ce3e29a51";
    let q = Query { width: 64, height: 64, token: Some(token.to_string()) };
    assert!(q.verify_token("s3cret".to_string()));
    assert!(!q.verify_token("other".to_string()));
    let q = Query { width: 64, height: 63, token: Some(token.to_string()) };
    assert!(!q.verify_token("s3cret".to_string()));
}

#[test]
fn verify_token_refuses_a_wrong_or_missing_token() {
    let q = Query { width: 64, height: 64, token: Some("deadbeef".repeat(8)) };
    assert!(!q.verify_token("s3cret".to_string()));
    let q = Query { width: 64, height: 64, token: None };
    assert!(!q.verify_token("s3cret".to_string()));
    let q = Query { width: 64, height: 64, token: Some(String::new()) };
    assert!(!q.verify_token("s3cret".to_string()));
}

#[test]
fn verify_token_goes_with_sign() {
    for (w, h) in [(1u32, 1u32), (100, 200), (4096, 4096), (0, 0)] {
        let mut q = Query { width: w, height: h, token: None };
        q.token = Some(sign(&q.full_path(), "k3y"));
        assert!(q.verify_token("k3y".to_string()));
    }
}
