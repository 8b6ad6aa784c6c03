use confgrabber::errors::ConfigError;
use confgrabber::normalize::{normalize_body, CanonicalOutput};
use confgrabber::text::render_canonical;

fn normalized(host: &str, body: &str) -> Result<CanonicalOutput, ConfigError> {
    normalize_body(host, body)
}

#[test]
fn array_output_becomes_lines() {
    let body = r#"{"jsonrpc":"2.0","id":"EapiExplorer-1","result":[{"output":""},{"output":["hostname sw1","interface Eth1"]}]}"#;
    match normalized("sw1", body) {
        Ok(CanonicalOutput::Lines(lines)) => {
            assert_eq!(lines, vec!["hostname sw1".to_string(), "interface Eth1".to_string()]);
        }
        other => panic!("expected lines, got {:?}", kind_of(&other)),
    }
}

#[test]
fn array_of_k_strings_renders_k_lines_in_order() {
    let body = r#"{"result":[{},{"output":["a","b","c"]}]}"#;
    let out = normalized("sw1", body).unwrap();
    let text = render_canonical(&out);
    assert_eq!(text, "a\nb\nc\n");
    assert_eq!(text.lines().count(), 3);
    let back: Vec<&str> = text.lines().collect();
    assert_eq!(back, vec!["a", "b", "c"]);
}

#[test]
fn string_output_is_verbatim() {
    let body = r#"{"result":[{},{"output":"interface Eth1\n   no switchport"}]}"#;
    match normalized("sw1", body) {
        Ok(CanonicalOutput::Verbatim(s)) => {
            assert_eq!(s, "interface Eth1\n   no switchport");
            let text = render_canonical(&CanonicalOutput::Verbatim(s));
            assert_eq!(text, "interface Eth1\n   no switchport");
        }
        other => panic!("expected verbatim, got {:?}", kind_of(&other)),
    }
}

#[test]
fn non_string_array_entries_are_dropped() {
    let body = r#"{"result":[{},{"output":["a",5,null,"b",{"x":1}]}]}"#;
    match normalized("sw1", body) {
        Ok(CanonicalOutput::Lines(lines)) => {
            assert_eq!(lines, vec!["a".to_string(), "b".to_string()]);
        }
        other => panic!("expected lines, got {:?}", kind_of(&other)),
    }
}

#[test]
fn empty_array_gives_empty_file() {
    let body = r#"{"result":[{},{"output":[]}]}"#;
    let out = normalized("sw1", body).unwrap();
    assert_eq!(render_canonical(&out), "");
}

#[test]
fn unparseable_body_is_a_parse_error() {
    match normalized("sw1", "not json at all {") {
        Err(ConfigError::ParseError(m)) => {
            assert_eq!(m, "Failed to parse JSON response from sw1");
        }
        other => panic!("expected parse error, got {:?}", kind_of(&other)),
    }
}

#[test]
fn missing_output_field_is_a_parse_error() {
    let body = r#"{"result":[{"output":"only one entry"}]}"#;
    match normalized("sw1", body) {
        Err(ConfigError::ParseError(m)) => {
            assert_eq!(m, "Unexpected response format from sw1");
        }
        other => panic!("expected parse error, got {:?}", kind_of(&other)),
    }
}

#[test]
fn error_only_body_is_a_parse_error() {
    let body = r#"{"error":{"code":1002,"message":"invalid command"}}"#;
    assert!(matches!(normalized("sw1", body), Err(ConfigError::ParseError(_))));
}

#[test]
fn wrong_shape_output_is_a_parse_error() {
    let body = r#"{"result":[{},{"output":42}]}"#;
    match normalized("sw1", body) {
        Err(ConfigError::ParseError(m)) => {
            assert_eq!(m, "Output is not in expected format for sw1");
        }
        other => panic!("expected parse error, got {:?}", kind_of(&other)),
    }
}

fn kind_of(r: &Result<CanonicalOutput, ConfigError>) -> String {
    match r {
        Ok(CanonicalOutput::Lines(_)) => "lines".to_string(),
        Ok(CanonicalOutput::Verbatim(_)) => "verbatim".to_string(),
        Err(e) => e.describe(),
    }
}
