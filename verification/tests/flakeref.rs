use nxbd::flakeref::{FlakeReference, ParseError};
use std::str::FromStr;

#[test]
fn test_empty_string() {
    let parsed = FlakeReference::from_str("");
    let expected = Ok(FlakeReference {
        url: "".to_string(),
        attribute: "".to_string(),
    });
    assert_eq!(parsed, expected);
}

#[test]
fn test_no_flake_path() {
    let parsed = FlakeReference::from_str("bla");
    let expected = Ok(FlakeReference {
        url: "".to_string(),
        attribute: "bla".to_string(),
    });
    assert_eq!(parsed, expected);
}

#[test]
fn test_with_flake_path() {
    let parsed = FlakeReference::from_str("foo#bar");
    let expected = Ok(FlakeReference {
        url: "foo".to_string(),
        attribute: "bar".to_string(),
    });
    assert_eq!(parsed, expected);
}

#[test]
fn test_empty_flake_path_with_attribute() {
    let parsed = FlakeReference::from_str("#bar");
    let expected = Ok(FlakeReference {
        url: "".to_string(),
        attribute: "bar".to_string(),
    });
    assert_eq!(parsed, expected);
}

#[test]
fn test_flake_path_with_empty_attribute() {
    let parsed = FlakeReference::from_str("foo#");
    let expected = Ok(FlakeReference {
        url: "foo".to_string(),
        attribute: "".to_string(),
    });
    assert_eq!(parsed, expected);
}

#[test]
fn test_multiple_hash_signs_error() {
    let parsed = FlakeReference::from_str("foo#bar#baz");
    let expected = Err(ParseError::MultipleHashSigns);
    assert_eq!(parsed, expected);
}

#[test]
fn test_parse_flake_reference_function() {
    let parsed = nxbd::parse_flake_reference("github:user/repo#host").unwrap();
    assert_eq!(parsed.url, "github:user/repo");
    assert_eq!(parsed.attribute, "host");
}

#[test]
fn test_display_string() {
    let fr = FlakeReference {
        url: "foo".to_string(),
        attribute: "bar".to_string(),
    };
    assert_eq!(fr.display_string(), "foo#bar");
}
