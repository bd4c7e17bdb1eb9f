use derive_display::declaration::{Annotation, AnnotationForm, Delimiter};
use derive_display::directive::{
    find_directive, format_spec_from, parse_display_attribute, Expression,
};
use derive_display::error::{ErrorKind, GenerateError, Target};

fn list(tokens: &str) -> Annotation {
    delimited(Delimiter::Parenthesis, tokens)
}

fn delimited(delimiter: Delimiter, tokens: &str) -> Annotation {
    Annotation {
        path: "display".to_string(),
        form: AnnotationForm::List { delimiter, tokens: tokens.to_string() },
    }
}

fn expression(text: &str, literal: Option<&str>) -> Expression {
    Expression { text: text.to_string(), literal: literal.map(|s| s.to_string()) }
}

fn at(kind: ErrorKind, target: Target) -> GenerateError {
    GenerateError { kind, case: None, target }
}

#[test]
fn directive_with_template_and_argument() {
    let spec = parse_display_attribute(&list("\"A: {}\", x")).unwrap();
    assert_eq!(spec.template, "\"A: {}\"");
    assert_eq!(spec.args, vec!["x".to_string()]);
}

#[test]
fn directive_with_template_only() {
    let spec = parse_display_attribute(&list("\"C: Unit\"")).unwrap();
    assert_eq!(spec.template, "\"C: Unit\"");
    assert!(spec.args.is_empty());
}

#[test]
fn directive_keeps_arguments_in_order() {
    let spec = parse_display_attribute(&list("\"{} {} {}\", _0, _1, _2")).unwrap();
    assert_eq!(spec.args, vec!["_0".to_string(), "_1".to_string(), "_2".to_string()]);
}

#[test]
fn directive_allows_trailing_comma() {
    let spec = parse_display_attribute(&list("\"{}\", x,")).unwrap();
    assert_eq!(spec.template, "\"{}\"");
    assert_eq!(spec.args, vec!["x".to_string()]);
}

#[test]
fn directive_arguments_are_arbitrary_expressions() {
    let spec = parse_display_attribute(&list("\"{} {}\", x + 1, \"text\"")).unwrap();
    assert_eq!(spec.args, vec!["x + 1".to_string(), "\"text\"".to_string()]);
}

#[test]
fn directive_keeps_raw_string_template_as_written() {
    let spec = parse_display_attribute(&list("r#\"a \"b\" {}\"#, x")).unwrap();
    assert_eq!(spec.template, "r#\"a \"b\" {}\"#");
}

#[test]
fn bare_annotation_is_malformed_directive() {
    let bare = Annotation { path: "display".to_string(), form: AnnotationForm::Word };
    let error = parse_display_attribute(&bare).unwrap_err();
    assert_eq!(error, at(ErrorKind::MalformedDirective, Target::Directive));
    assert_eq!(error.message(), "Invalid directive format");
}

#[test]
fn assignment_is_malformed_directive() {
    let assigned = Annotation { path: "display".to_string(), form: AnnotationForm::Assignment };
    let error = parse_display_attribute(&assigned).unwrap_err();
    assert_eq!(error, at(ErrorKind::MalformedDirective, Target::Directive));
}

#[test]
fn list_in_other_brackets_is_malformed_directive() {
    let expected = at(ErrorKind::MalformedDirective, Target::Directive);
    let bracketed = delimited(Delimiter::Bracket, "\"{}\", x");
    assert_eq!(parse_display_attribute(&bracketed).unwrap_err(), expected);
    let braced = delimited(Delimiter::Brace, "\"{}\", x");
    assert_eq!(parse_display_attribute(&braced).unwrap_err(), expected);
    let round = delimited(Delimiter::Parenthesis, "\"{}\", x");
    assert!(parse_display_attribute(&round).is_ok());
}

#[test]
fn list_that_is_no_expression_list_is_malformed_arguments() {
    let error = parse_display_attribute(&list("\"a\" b")).unwrap_err();
    assert_eq!(error, at(ErrorKind::MalformedArguments, Target::Directive));
    assert_eq!(error.message(), "Invalid #[display] arguments");
}

#[test]
fn list_that_does_not_lex_is_malformed_arguments() {
    let error = parse_display_attribute(&list("\"unterminated")).unwrap_err();
    assert_eq!(error, at(ErrorKind::MalformedArguments, Target::Directive));
}

#[test]
fn empty_list_lacks_template() {
    let error = parse_display_attribute(&list("")).unwrap_err();
    assert_eq!(error, at(ErrorKind::MissingOrInvalidTemplate, Target::Directive));
    assert_eq!(error.message(), "Expected a string literal");
}

#[test]
fn first_item_that_is_no_string_literal_is_refused() {
    let error = parse_display_attribute(&list("x, \"{}\"")).unwrap_err();
    assert_eq!(error, at(ErrorKind::MissingOrInvalidTemplate, Target::Expression(0)));
    assert_eq!(error.message(), "Expected a string literal");
}

#[test]
fn number_literal_is_no_template() {
    let error = parse_display_attribute(&list("5")).unwrap_err();
    assert_eq!(error, at(ErrorKind::MissingOrInvalidTemplate, Target::Expression(0)));
}

#[test]
fn format_spec_from_splits_template_and_arguments() {
    let parsed = vec![
        expression("\"{} {}\"", Some("\"{} {}\"")),
        expression("a", None),
        expression("b . c", None),
    ];
    let spec = format_spec_from(&parsed).unwrap();
    assert_eq!(spec.template, "\"{} {}\"");
    assert_eq!(spec.args, vec!["a".to_string(), "b . c".to_string()]);
}

#[test]
fn format_spec_from_takes_the_literal_of_the_first_item() {
    let parsed = vec![expression("# [note] \"x\"", Some("\"x\""))];
    let spec = format_spec_from(&parsed).unwrap();
    assert_eq!(spec.template, "\"x\"");
    assert!(spec.args.is_empty());
}

#[test]
fn format_spec_from_empty_list() {
    let error = format_spec_from(&Vec::new()).unwrap_err();
    assert_eq!(error, at(ErrorKind::MissingOrInvalidTemplate, Target::Directive));
}

#[test]
fn format_spec_from_non_literal_first() {
    let parsed = vec![expression("x", None), expression("\"y\"", Some("\"y\""))];
    let error = format_spec_from(&parsed).unwrap_err();
    assert_eq!(error, at(ErrorKind::MissingOrInvalidTemplate, Target::Expression(0)));
}

#[test]
fn find_directive_takes_the_first_display_annotation() {
    let annotations = vec![
        Annotation { path: "doc".to_string(), form: AnnotationForm::Assignment },
        list("\"first\""),
        list("\"second\""),
    ];
    let found = find_directive(&annotations).unwrap();
    match &found.form {
        AnnotationForm::List { tokens, .. } => assert_eq!(tokens, "\"first\""),
        other => panic!("unexpected form {:?}", other),
    }
}

#[test]
fn find_directive_without_display_annotation() {
    let annotations = vec![
        Annotation { path: "doc".to_string(), form: AnnotationForm::Assignment },
        Annotation { path: "displayed".to_string(), form: AnnotationForm::Word },
        Annotation { path: "Display".to_string(), form: AnnotationForm::Word },
    ];
    assert!(find_directive(&annotations).is_none());
    assert!(find_directive(&Vec::new()).is_none());
}

#[test]
fn annotation_directive_builds_a_display_list() {
    let annotation = Annotation::directive("\"{}\", x");
    assert_eq!(annotation.path, "display");
    match annotation.form {
        AnnotationForm::List { delimiter, tokens } => {
            assert_eq!(delimiter, Delimiter::Parenthesis);
            assert_eq!(tokens, "\"{}\", x");
        }
        other => panic!("unexpected form {:?}", other),
    }
}
