use derive_display::binding::Bindings;
use derive_display::declaration::{
    Annotation, AnnotationForm, CaseDeclaration, DeclarationKind, Delimiter, FieldShape, Generics,
    TypeDeclaration, TypeParameter,
};
use derive_display::error::{ErrorKind, GenerateError, Target};
use derive_display::header::{implementation_header, GeneratedHeader};
use derive_display::impl_enum::{enum_implementation, parse_enum, Case, EnumReceiver};
use derive_display::impl_struct::{parse_struct, struct_implementation, StructReceiver};
use derive_display::output::{params_source, Body};
use derive_display::directive::FormatSpec;
use derive_display::{derive_display, expand};

fn names(list: &[&str]) -> Vec<String> {
    list.iter().map(|s| s.to_string()).collect()
}

fn no_generics() -> Generics {
    Generics { lifetimes: Vec::new(), type_params: Vec::new(), where_clause: None }
}

fn case(name: &str, shape: FieldShape, directive: Option<&str>) -> CaseDeclaration {
    CaseDeclaration {
        name: name.to_string(),
        shape,
        annotations: directive.map(Annotation::directive).into_iter().collect(),
    }
}

fn sum(name: &str, cases: Vec<CaseDeclaration>) -> TypeDeclaration {
    TypeDeclaration {
        name: name.to_string(),
        generics: no_generics(),
        annotations: Vec::new(),
        kind: DeclarationKind::Sum(cases),
    }
}

fn product(name: &str, shape: FieldShape, directive: Option<&str>) -> TypeDeclaration {
    TypeDeclaration {
        name: name.to_string(),
        generics: no_generics(),
        annotations: directive.map(Annotation::directive).into_iter().collect(),
        kind: DeclarationKind::Product(shape),
    }
}

fn error(kind: ErrorKind, case: Option<usize>, target: Target) -> GenerateError {
    GenerateError { kind, case, target }
}

fn three_cases() -> TypeDeclaration {
    sum(
        "MyEnum",
        vec![
            case("A", FieldShape::Named(names(&["x"])), Some("\"A: {}\", x")),
            case("B", FieldShape::Positional(1), Some("\"B: {}\", _0")),
            case("C", FieldShape::NoField, Some("\"C: Unit\"")),
        ],
    )
}

#[test]
fn named_field_case_binds_its_field() {
    let generated = parse_enum(&three_cases()).unwrap();
    let Body::Match(arms) = &generated.body else { panic!("no case analysis") };
    assert_eq!(arms[0].case, "A");
    match &arms[0].bindings {
        Bindings::Record(idents) => assert_eq!(idents, &names(&["x"])),
        other => panic!("unexpected bindings {:?}", other),
    }
    assert_eq!(arms[0].call.template, "\"A: {}\"");
    assert_eq!(arms[0].call.args, names(&["x"]));
    let source = generated.to_source();
    assert!(source.contains("            MyEnum::A { x } => write!(f, \"A: {}\", x),\n"));
}

#[test]
fn positional_case_binds_synthetic_identifier() {
    let generated = parse_enum(&three_cases()).unwrap();
    let Body::Match(arms) = &generated.body else { panic!("no case analysis") };
    assert_eq!(arms[1].case, "B");
    match &arms[1].bindings {
        Bindings::Tuple(idents) => assert_eq!(idents, &names(&["_0"])),
        other => panic!("unexpected bindings {:?}", other),
    }
    assert_eq!(arms[1].call.template, "\"B: {}\"");
    assert_eq!(arms[1].call.args, names(&["_0"]));
    let source = generated.to_source();
    assert!(source.contains("            MyEnum::B(_0) => write!(f, \"B: {}\", _0),\n"));
}

#[test]
fn no_field_case_binds_nothing() {
    let generated = parse_enum(&three_cases()).unwrap();
    let Body::Match(arms) = &generated.body else { panic!("no case analysis") };
    assert_eq!(arms[2].case, "C");
    assert!(matches!(arms[2].bindings, Bindings::Unit));
    assert_eq!(arms[2].call.template, "\"C: Unit\"");
    assert!(arms[2].call.args.is_empty());
    let source = generated.to_source();
    assert!(source.contains("            MyEnum::C => write!(f, \"C: Unit\", )\n"));
}

#[test]
fn sum_source_text() {
    let source = derive_display(&three_cases()).unwrap();
    let expected = "impl<> std::fmt::Display for MyEnum<> {\n    \
        fn fmt(&self, f: &mut std::fmt::Formatter<'_>) -> std::fmt::Result {\n        \
        match self {\n            \
        MyEnum::A { x } => write!(f, \"A: {}\", x),\n            \
        MyEnum::B(_0) => write!(f, \"B: {}\", _0),\n            \
        MyEnum::C => write!(f, \"C: Unit\", )\n        \
        }\n    \
        }\n\
        }\n";
    assert_eq!(source, expected);
}

#[test]
fn sum_has_one_arm_per_case_in_order() {
    let declared = sum(
        "Letters",
        vec![
            case("Z", FieldShape::NoField, Some("\"z\"")),
            case("A", FieldShape::Positional(2), Some("\"{}{}\", _1, _0")),
            case("M", FieldShape::Named(names(&["m", "n"])), Some("\"{}\", m")),
            case("B", FieldShape::NoField, Some("\"b\"")),
        ],
    );
    let generated = expand(&declared).unwrap();
    assert_eq!(generated.ty, "Letters");
    let Body::Match(arms) = &generated.body else { panic!("no case analysis") };
    let order: Vec<&str> = arms.iter().map(|arm| arm.case.as_str()).collect();
    assert_eq!(order, vec!["Z", "A", "M", "B"]);
    let templates: Vec<&str> = arms.iter().map(|arm| arm.call.template.as_str()).collect();
    assert_eq!(templates, vec!["\"z\"", "\"{}{}\"", "\"{}\"", "\"b\""]);
    assert_eq!(arms[1].call.args, names(&["_1", "_0"]));
}

#[test]
fn sum_without_cases() {
    let generated = expand(&sum("Never", Vec::new())).unwrap();
    let Body::Match(arms) = &generated.body else { panic!("no case analysis") };
    assert!(arms.is_empty());
}

#[test]
fn case_without_directive_fails_for_that_case() {
    let declared = sum(
        "E",
        vec![
            case("A", FieldShape::NoField, Some("\"a\"")),
            case("B", FieldShape::NoField, None),
            case("C", FieldShape::NoField, Some("\"c\"")),
        ],
    );
    let expected = error(ErrorKind::MissingDirective, Some(1), Target::Case);
    assert_eq!(expand(&declared).unwrap_err(), expected);
    assert_eq!(parse_enum(&declared).unwrap_err(), expected);
    assert_eq!(derive_display(&declared), Err(expected));
    assert_eq!(expected.message(), "every case must carry a display directive");
}

#[test]
fn first_failing_case_wins() {
    let declared = sum(
        "E",
        vec![
            case("A", FieldShape::NoField, Some("\"a\"")),
            case("B", FieldShape::NoField, Some("b")),
            case("C", FieldShape::NoField, None),
        ],
    );
    assert_eq!(
        expand(&declared).unwrap_err(),
        error(ErrorKind::MissingOrInvalidTemplate, Some(1), Target::Expression(0))
    );
    let declared = sum(
        "E",
        vec![
            case("A", FieldShape::NoField, None),
            case("B", FieldShape::NoField, Some("b")),
        ],
    );
    assert_eq!(
        expand(&declared).unwrap_err(),
        error(ErrorKind::MissingDirective, Some(0), Target::Case)
    );
}

#[test]
fn case_with_malformed_directive() {
    let mut bare = case("A", FieldShape::NoField, None);
    bare.annotations.push(Annotation { path: "display".to_string(), form: AnnotationForm::Word });
    assert_eq!(
        expand(&sum("E", vec![bare])).unwrap_err(),
        error(ErrorKind::MalformedDirective, Some(0), Target::Directive)
    );
    let broken = case("A", FieldShape::NoField, Some("\"a\" \"b\""));
    assert_eq!(
        expand(&sum("E", vec![broken])).unwrap_err(),
        error(ErrorKind::MalformedArguments, Some(0), Target::Directive)
    );
    let empty = case("A", FieldShape::NoField, Some(""));
    assert_eq!(
        expand(&sum("E", vec![empty])).unwrap_err(),
        error(ErrorKind::MissingOrInvalidTemplate, Some(0), Target::Directive)
    );
}

#[test]
fn from_variant_reads_one_case() {
    let declared = case("B", FieldShape::Positional(1), Some("\"B: {}\", _0"));
    let read = Case::from_variant(&declared).unwrap();
    assert_eq!(read.name, "B");
    assert!(matches!(read.shape, FieldShape::Positional(1)));
    assert_eq!(read.format.template, "\"B: {}\"");
    assert_eq!(read.format.args, names(&["_0"]));
    let bare = case("B", FieldShape::Positional(1), None);
    let missing = Case::from_variant(&bare).unwrap_err();
    assert_eq!(missing, error(ErrorKind::MissingDirective, None, Target::Case));
    assert_eq!(missing.message(), "every case must carry a display directive");
    assert_eq!(missing.in_case(3).message(), "every case must carry a display directive");
}

#[test]
fn enum_receiver_keeps_name_generics_and_cases() {
    let mut declared = three_cases();
    declared.generics.lifetimes.push("'a".to_string());
    let receiver = EnumReceiver::from_derive_input(&declared).unwrap();
    assert_eq!(receiver.name, "MyEnum");
    assert_eq!(receiver.generics.lifetimes, names(&["'a"]));
    let order: Vec<&str> = receiver.cases.iter().map(|c| c.name.as_str()).collect();
    assert_eq!(order, vec!["A", "B", "C"]);
}

#[test]
fn parse_enum_refuses_other_kinds() {
    let declared = product("S", FieldShape::NoField, Some("\"s\""));
    assert_eq!(
        parse_enum(&declared).unwrap_err(),
        error(ErrorKind::UnsupportedShape, None, Target::Declaration)
    );
    let mut declared = product("U", FieldShape::NoField, Some("\"u\""));
    declared.kind = DeclarationKind::Union;
    assert_eq!(
        parse_enum(&declared).unwrap_err(),
        error(ErrorKind::UnsupportedKind, None, Target::Declaration)
    );
}

#[test]
fn enum_implementation_from_read_cases() {
    let receiver = EnumReceiver {
        name: "E".to_string(),
        generics: no_generics(),
        cases: vec![
            Case {
                name: "P".to_string(),
                shape: FieldShape::Positional(2),
                format: FormatSpec { template: "\"{}\"".to_string(), args: names(&["_1"]) },
            },
            Case {
                name: "Q".to_string(),
                shape: FieldShape::NoField,
                format: FormatSpec { template: "\"q\"".to_string(), args: Vec::new() },
            },
        ],
    };
    let source = enum_implementation(&receiver).to_source();
    let expected = "impl<> std::fmt::Display for E<> {\n    \
        fn fmt(&self, f: &mut std::fmt::Formatter<'_>) -> std::fmt::Result {\n        \
        match self {\n            \
        E::P(_0, _1) => write!(f, \"{}\", _1),\n            \
        E::Q => write!(f, \"q\", )\n        \
        }\n    \
        }\n\
        }\n";
    assert_eq!(source, expected);
}

#[test]
fn product_has_exactly_one_render_call() {
    let declared = product(
        "NamedFields",
        FieldShape::Named(names(&["x", "y", "s"])),
        Some("\"NamedFields: x = {}, y = {}, s = {}\", x, y, s"),
    );
    let generated = expand(&declared).unwrap();
    let Body::Direct { bindings, call } = &generated.body else { panic!("no direct body") };
    match bindings {
        Bindings::Record(idents) => assert_eq!(idents, &names(&["x", "y", "s"])),
        other => panic!("unexpected bindings {:?}", other),
    }
    assert_eq!(call.template, "\"NamedFields: x = {}, y = {}, s = {}\"");
    assert_eq!(call.args, names(&["x", "y", "s"]));
    let source = generated.to_source();
    assert_eq!(source.matches("write!(").count(), 1);
    let expected = "impl<> std::fmt::Display for NamedFields<> {\n    \
        fn fmt(&self, f: &mut std::fmt::Formatter<'_>) -> std::fmt::Result {\n        \
        let NamedFields { x, y, s } = self;\n        \
        write!(f, \"NamedFields: x = {}, y = {}, s = {}\", x, y, s)\n    \
        }\n\
        }\n";
    assert_eq!(source, expected);
}

#[test]
fn positional_product_source() {
    let declared = product(
        "TupleFields",
        FieldShape::Positional(3),
        Some("\"TupleFields: {} {} {}\", _0, _1, _2"),
    );
    let source = derive_display(&declared).unwrap();
    let expected = "impl<> std::fmt::Display for TupleFields<> {\n    \
        fn fmt(&self, f: &mut std::fmt::Formatter<'_>) -> std::fmt::Result {\n        \
        let TupleFields(_0, _1, _2) = self;\n        \
        write!(f, \"TupleFields: {} {} {}\", _0, _1, _2)\n    \
        }\n\
        }\n";
    assert_eq!(source, expected);
}

#[test]
fn single_field_product_source() {
    let declared = product("Wrapper", FieldShape::Positional(1), Some("\"<{}>\", _0"));
    let source = derive_display(&declared).unwrap();
    assert!(source.contains("        let Wrapper(_0) = self;\n        write!(f, \"<{}>\", _0)\n"));
}

#[test]
fn no_field_product_has_no_binding_step() {
    let declared = product("UnitStruct", FieldShape::NoField, Some("\"UnitStruct\""));
    let generated = parse_struct(&declared).unwrap();
    let Body::Direct { bindings, .. } = &generated.body else { panic!("no direct body") };
    assert!(matches!(bindings, Bindings::Unit));
    let expected = "impl<> std::fmt::Display for UnitStruct<> {\n    \
        fn fmt(&self, f: &mut std::fmt::Formatter<'_>) -> std::fmt::Result {\n        \
        write!(f, \"UnitStruct\", )\n    \
        }\n\
        }\n";
    assert_eq!(generated.to_source(), expected);
}

#[test]
fn product_without_directive() {
    let declared = product("S", FieldShape::NoField, None);
    let expected = error(ErrorKind::MissingDirective, None, Target::Declaration);
    assert_eq!(expand(&declared).unwrap_err(), expected);
    assert_eq!(parse_struct(&declared).unwrap_err(), expected);
    assert_eq!(derive_display(&declared), Err(expected));
    assert_eq!(expected.message(), "struct must carry a display directive");
}

#[test]
fn product_with_invalid_directive() {
    let declared = product("S", FieldShape::NoField, Some("name"));
    assert_eq!(
        expand(&declared).unwrap_err(),
        error(ErrorKind::MissingOrInvalidTemplate, None, Target::Expression(0))
    );
    let declared = product("S", FieldShape::NoField, Some(""));
    assert_eq!(
        expand(&declared).unwrap_err(),
        error(ErrorKind::MissingOrInvalidTemplate, None, Target::Directive)
    );
    let declared = product("S", FieldShape::NoField, Some("\"a\" +"));
    assert_eq!(
        expand(&declared).unwrap_err(),
        error(ErrorKind::MalformedArguments, None, Target::Directive)
    );
    let mut declared = product("S", FieldShape::NoField, None);
    declared
        .annotations
        .push(Annotation { path: "display".to_string(), form: AnnotationForm::Assignment });
    assert_eq!(
        expand(&declared).unwrap_err(),
        error(ErrorKind::MalformedDirective, None, Target::Directive)
    );
}

#[test]
fn product_takes_its_first_directive() {
    let mut declared = product("S", FieldShape::NoField, None);
    declared.annotations = vec![
        Annotation {
            path: "derive".to_string(),
            form: AnnotationForm::List {
                delimiter: Delimiter::Parenthesis,
                tokens: "Debug".to_string(),
            },
        },
        Annotation::directive("\"one\""),
        Annotation::directive("two"),
    ];
    let generated = expand(&declared).unwrap();
    let Body::Direct { call, .. } = &generated.body else { panic!("no direct body") };
    assert_eq!(call.template, "\"one\"");
}

#[test]
fn struct_receiver_and_implementation() {
    let declared = product("Pair", FieldShape::Positional(2), Some("\"{}-{}\", _0, _1"));
    let receiver = StructReceiver::from_derive_input(&declared).unwrap();
    assert_eq!(receiver.name, "Pair");
    assert_eq!(receiver.format.template, "\"{}-{}\"");
    let generated = struct_implementation(&receiver, &FieldShape::Positional(2));
    assert!(generated.to_source().contains("let Pair(_0, _1) = self;"));
}

#[test]
fn parse_struct_refuses_other_kinds() {
    let declared = sum("E", Vec::new());
    assert_eq!(
        parse_struct(&declared).unwrap_err(),
        error(ErrorKind::UnsupportedShape, None, Target::Declaration)
    );
    let mut declared = product("U", FieldShape::NoField, Some("\"u\""));
    declared.kind = DeclarationKind::Union;
    assert_eq!(
        parse_struct(&declared).unwrap_err(),
        error(ErrorKind::UnsupportedKind, None, Target::Declaration)
    );
}

#[test]
fn union_is_refused_whatever_it_holds() {
    let mut declared = product("U", FieldShape::NoField, Some("\"u\""));
    declared.kind = DeclarationKind::Union;
    let expected = error(ErrorKind::UnsupportedKind, None, Target::Declaration);
    assert_eq!(expand(&declared).unwrap_err(), expected);
    assert_eq!(derive_display(&declared), Err(expected));
    declared.annotations.clear();
    declared.generics.lifetimes.push("'a".to_string());
    assert_eq!(expand(&declared).unwrap_err(), expected);
    assert_eq!(expected.message(), "unions are not supported");
}

fn generic_header() -> Generics {
    Generics {
        lifetimes: names(&["'a", "'b: 'a"]),
        type_params: vec![
            TypeParameter { text: "T: Clone".to_string(), default: Some("u8".to_string()) },
            TypeParameter { text: "U".to_string(), default: None },
        ],
        where_clause: Some("where U: std::fmt::Debug".to_string()),
    }
}

#[test]
fn header_drops_defaults() {
    let header = implementation_header(&generic_header());
    assert_eq!(header.type_params, names(&["T: Clone", "U"]));
    assert_eq!(header.lifetimes, names(&["'a", "'b: 'a"]));
    assert_eq!(header.where_clause.as_deref(), Some("where U: std::fmt::Debug"));
    assert_eq!(params_source(&header), "'a, 'b: 'a, T: Clone, U");
}

#[test]
fn header_does_not_depend_on_defaults() {
    let mut plain = generic_header();
    plain.type_params[0].default = None;
    plain.type_params[1].default = Some("String".to_string());
    let one = implementation_header(&generic_header());
    let other = implementation_header(&plain);
    assert_eq!(one.lifetimes, other.lifetimes);
    assert_eq!(one.type_params, other.type_params);
    assert_eq!(one.where_clause, other.where_clause);
}

#[test]
fn generated_source_never_shows_a_default() {
    let mut declared = product("G", FieldShape::NoField, Some("\"g\""));
    declared.generics = generic_header();
    let source = derive_display(&declared).unwrap();
    assert!(!source.contains("= u8"));
    let expected = "impl<'a, 'b: 'a, T: Clone, U> std::fmt::Display for G<'a, 'b: 'a, T: Clone, U> \
        where U: std::fmt::Debug {\n    \
        fn fmt(&self, f: &mut std::fmt::Formatter<'_>) -> std::fmt::Result {\n        \
        write!(f, \"g\", )\n    \
        }\n\
        }\n";
    assert_eq!(source, expected);
}

#[test]
fn comma_follows_lifetimes_only_where_there_are_some() {
    let mut header =
        GeneratedHeader { lifetimes: Vec::new(), type_params: Vec::new(), where_clause: None };
    assert_eq!(params_source(&header), "");
    header.type_params.push("T".to_string());
    assert_eq!(params_source(&header), "T");
    header.type_params.push("U".to_string());
    assert_eq!(params_source(&header), "T, U");
    header.lifetimes.push("'a".to_string());
    assert_eq!(params_source(&header), "'a, T, U");
    header.lifetimes.push("'b".to_string());
    assert_eq!(params_source(&header), "'a, 'b, T, U");
    header.type_params.clear();
    assert_eq!(params_source(&header), "'a, 'b, ");
}

#[test]
fn sum_with_generics_source() {
    let mut declared = sum(
        "Either",
        vec![
            case("Left", FieldShape::Positional(1), Some("\"L({})\", _0")),
            case("Right", FieldShape::Positional(1), Some("\"R({})\", _0")),
        ],
    );
    declared.generics = Generics {
        lifetimes: Vec::new(),
        type_params: vec![
            TypeParameter { text: "L".to_string(), default: None },
            TypeParameter { text: "R".to_string(), default: Some("L".to_string()) },
        ],
        where_clause: Some("where L: std::fmt::Display, R: std::fmt::Display".to_string()),
    };
    let source = derive_display(&declared).unwrap();
    assert!(source.starts_with(
        "impl<L, R> std::fmt::Display for Either<L, R> \
         where L: std::fmt::Display, R: std::fmt::Display {\n"
    ));
}

#[test]
fn generated_source_does_not_depend_on_defaults() {
    let mut with_defaults = product("G", FieldShape::Positional(1), Some("\"{}\", _0"));
    with_defaults.generics = generic_header();
    let mut without = product("G", FieldShape::Positional(1), Some("\"{}\", _0"));
    without.generics = generic_header();
    without.generics.type_params[0].default = None;
    assert_eq!(derive_display(&with_defaults), derive_display(&without));
    assert!(derive_display(&with_defaults).is_ok());
}
