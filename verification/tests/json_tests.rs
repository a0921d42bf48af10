use tela::json::parse;

#[test]
fn parses_scalar_and_object_values() {
    let value = parse(r#"{"app": {"theme": "dark", "flags": [true, false]}}"#).expect("parse");
    assert_eq!(value["app"]["theme"], "dark");
    assert_eq!(value["app"]["flags"][0], true);
}

#[test]
fn rejects_malformed_json() {
    assert!(parse("{not json}").is_err());
}
