use stability::error::StabilityError;
use stability::unstable::{Argument, ArgumentValue, UnstableAttribute};
use syn::parse::Parser;

fn string(name: &str, value: &str) -> Argument {
    Argument { name: name.to_string(), value: ArgumentValue::Str(value.to_string()) }
}

fn other(name: &str) -> Argument {
    Argument { name: name.to_string(), value: ArgumentValue::Other }
}

fn parse_args(args: &str) -> Result<UnstableAttribute, syn::Error> {
    let mut attributes = UnstableAttribute::default();
    let parser = syn::meta::parser(|meta| attributes.parse(meta));
    parser.parse_str(args)?;
    Ok(attributes)
}

#[test]
fn no_arguments_leave_both_unset() {
    let attributes = UnstableAttribute::default();
    assert_eq!(attributes.feature, None);
    assert_eq!(attributes.issue, None);
    assert_eq!(attributes.crate_feature_name(), "unstable");
}

#[test]
fn accept_feature_sets_only_the_feature() {
    let mut attributes = UnstableAttribute::default();
    assert_eq!(attributes.accept(string("feature", "risky-function")), Ok(()));
    assert_eq!(attributes.feature, Some("risky-function".to_string()));
    assert_eq!(attributes.issue, None);
}

#[test]
fn accept_issue_sets_only_the_issue() {
    let mut attributes = UnstableAttribute::default();
    assert_eq!(attributes.accept(string("issue", "#101")), Ok(()));
    assert_eq!(attributes.feature, None);
    assert_eq!(attributes.issue, Some("#101".to_string()));
}

#[test]
fn accept_both_in_either_order() {
    let mut first = UnstableAttribute::default();
    first.accept(string("feature", "a")).unwrap();
    first.accept(string("issue", "b")).unwrap();
    let mut second = UnstableAttribute::default();
    second.accept(string("issue", "b")).unwrap();
    second.accept(string("feature", "a")).unwrap();
    assert_eq!(first, second);
    assert_eq!(first.feature, Some("a".to_string()));
    assert_eq!(first.issue, Some("b".to_string()));
}

#[test]
fn accept_later_value_replaces_earlier() {
    let mut attributes = UnstableAttribute::default();
    attributes.accept(string("feature", "old")).unwrap();
    attributes.accept(string("feature", "new")).unwrap();
    assert_eq!(attributes.feature, Some("new".to_string()));
}

#[test]
fn accept_ignores_other_names() {
    let mut attributes = UnstableAttribute::default();
    attributes.accept(string("feature", "kept")).unwrap();
    assert_eq!(attributes.accept(string("since", "1.0")), Ok(()));
    assert_eq!(attributes.accept(other("reason")), Ok(()));
    assert_eq!(attributes.accept(string("Feature", "x")), Ok(()));
    assert_eq!(attributes.accept(string("", "x")), Ok(()));
    assert_eq!(attributes.feature, Some("kept".to_string()));
    assert_eq!(attributes.issue, None);
}

#[test]
fn accept_refuses_feature_without_string() {
    let mut attributes = UnstableAttribute::default();
    attributes.accept(string("issue", "#7")).unwrap();
    assert_eq!(attributes.accept(other("feature")), Err(StabilityError::MalformedArgument));
    assert_eq!(attributes.feature, None);
    assert_eq!(attributes.issue, Some("#7".to_string()));
}

#[test]
fn accept_refuses_issue_without_string() {
    let mut attributes = UnstableAttribute::default();
    attributes.accept(string("feature", "f")).unwrap();
    assert_eq!(attributes.accept(other("issue")), Err(StabilityError::MalformedArgument));
    assert_eq!(attributes.feature, Some("f".to_string()));
    assert_eq!(attributes.issue, None);
}

#[test]
fn error_messages() {
    assert_eq!(StabilityError::MalformedArgument.message(), "expected a string literal");
    assert_eq!(StabilityError::UnsupportedDeclaration.message(), "unsupported item type");
}

#[test]
fn parse_reads_feature_and_issue() {
    let attributes = parse_args("feature = \"risky-function\", issue = \"#101\"").unwrap();
    assert_eq!(attributes.feature, Some("risky-function".to_string()));
    assert_eq!(attributes.issue, Some("#101".to_string()));
}

#[test]
fn parse_reads_nothing_from_nothing() {
    let attributes = parse_args("").unwrap();
    assert_eq!(attributes, UnstableAttribute::default());
}

#[test]
fn parse_takes_the_value_of_the_literal_not_its_source() {
    let attributes = parse_args("feature = \"a\\\"b\", issue = r#\"c\"d\"#").unwrap();
    assert_eq!(attributes.feature, Some("a\"b".to_string()));
    assert_eq!(attributes.issue, Some("c\"d".to_string()));
}

#[test]
fn parse_accepts_a_trailing_comma() {
    let attributes = parse_args("issue = \"#3\",").unwrap();
    assert_eq!(attributes.feature, None);
    assert_eq!(attributes.issue, Some("#3".to_string()));
}

#[test]
fn parse_leaves_other_properties_alone() {
    let attributes = parse_args("soon, feature = \"x\"").unwrap();
    assert_eq!(attributes.feature, Some("x".to_string()));
    assert_eq!(attributes.issue, None);
}

#[test]
fn parse_refuses_a_number() {
    let error = parse_args("feature = 42").unwrap_err();
    assert_eq!(error.to_string(), "expected a string literal");
}

#[test]
fn parse_refuses_other_literals() {
    assert!(parse_args("issue = true").is_err());
    assert!(parse_args("issue = 'c'").is_err());
    assert!(parse_args("feature = b\"bytes\"").is_err());
    assert!(parse_args("feature = 1.5").is_err());
}

#[test]
fn parse_refuses_a_missing_value() {
    assert!(parse_args("feature").is_err());
    assert!(parse_args("issue,").is_err());
    assert!(parse_args("feature = ").is_err());
}

#[test]
fn parse_refuses_what_is_no_literal() {
    assert!(parse_args("feature = risky").is_err());
}

#[test]
fn parse_keeps_what_was_read_before_an_error() {
    let mut attributes = UnstableAttribute::default();
    let parser = syn::meta::parser(|meta| attributes.parse(meta));
    assert!(parser.parse_str("feature = \"kept\", issue = 7").is_err());
    assert_eq!(attributes.feature, Some("kept".to_string()));
    assert_eq!(attributes.issue, None);
}
