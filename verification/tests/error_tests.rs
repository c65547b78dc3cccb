use kubeclient::errors::Error;

#[test]
fn every_variant_carries_its_message() {
    let cases = vec![
        Error::ParseError("p".to_string()),
        Error::NotFoundError("n".to_string()),
        Error::AmbiguousError("a".to_string()),
        Error::ValidationError("v".to_string()),
        Error::TransportError("t".to_string()),
        Error::ApiError("api".to_string()),
        Error::DecodeError("d".to_string()),
        Error::UrlError("u".to_string()),
    ];
    let expected = vec!["p", "n", "a", "v", "t", "api", "d", "u"];
    for (e, want) in cases.iter().zip(expected.iter()) {
        assert_eq!(e.message(), want);
    }
}

#[test]
fn clone_keeps_variant_and_message() {
    let e = Error::ApiError("pods is forbidden".to_string());
    let c = e.clone();
    assert!(matches!(c, Error::ApiError(m) if m == "pods is forbidden"));
}
