//! Sample types with the directives that they are declared with, and with
//! the rendering that those directives ask for.

use vstd::prelude::*;
use vstd::string::*;
use crate::declaration::{
    directive_with,
    Annotation,
    CaseDeclaration,
    CaseDeclarationView,
    DeclarationKind,
    DeclarationKindView,
    FieldShape,
    FieldShapeView,
    Generics,
    GenericsView,
    TypeDeclaration,
    TypeDeclarationView,
    TypeParameter,
    TypeParameterView,
};
use crate::model::views;
use crate::text::{append_signed_decimal, signed_decimal};

verus! {

/// The parameters of a sample that borrows for `'a`.
pub open spec fn one_lifetime() -> GenericsView {
    GenericsView { lifetimes: seq!["'a"@], type_params: Seq::empty(), where_clause: None }
}

/// The parameters of a sample without any.
pub open spec fn no_generics() -> GenericsView {
    GenericsView { lifetimes: Seq::empty(), type_params: Seq::empty(), where_clause: None }
}

fn borrowing() -> (generics: Generics)
    ensures
        generics@ == one_lifetime(),
{
    let lifetimes = vec![String::from_str("'a")];
    let type_params: Vec<TypeParameter> = Vec::new();
    assert(views(lifetimes@) =~= seq!["'a"@]);
    assert(views(type_params@) =~= Seq::<TypeParameterView>::empty());
    Generics { lifetimes, type_params, where_clause: None }
}

fn owning() -> (generics: Generics)
    ensures
        generics@ == no_generics(),
{
    let lifetimes: Vec<String> = Vec::new();
    let type_params: Vec<TypeParameter> = Vec::new();
    assert(views(lifetimes@) =~= Seq::<Seq<char>>::empty());
    assert(views(type_params@) =~= Seq::<TypeParameterView>::empty());
    Generics { lifetimes, type_params, where_clause: None }
}

fn directive_only(tokens: &str) -> (annotations: Vec<Annotation>)
    ensures
        views(annotations@) == seq![directive_with(tokens@)],
{
    let annotations = vec![Annotation::directive(tokens)];
    assert(views(annotations@) =~= seq![directive_with(tokens@)]);
    annotations
}

/// A sum type with a case of each field shape.
#[derive(Debug)]
pub enum MyEnum<'a> {
    A { x: i32 },
    B(&'a str),
    C,
}

impl<'a> MyEnum<'a> {
    /// The declaration of `MyEnum`.
    pub open spec fn declared() -> TypeDeclarationView {
        TypeDeclarationView {
            name: "MyEnum"@,
            generics: one_lifetime(),
            annotations: Seq::empty(),
            kind: DeclarationKindView::Sum(
                seq![
                    CaseDeclarationView {
                        name: "A"@,
                        shape: FieldShapeView::Named(seq!["x"@]),
                        annotations: seq![directive_with("\"A: {}\", x"@)],
                    },
                    CaseDeclarationView {
                        name: "B"@,
                        shape: FieldShapeView::Positional(1),
                        annotations: seq![directive_with("\"B: {}\", _0"@)],
                    },
                    CaseDeclarationView {
                        name: "C"@,
                        shape: FieldShapeView::NoField,
                        annotations: seq![directive_with("\"C: Unit\""@)],
                    },
                ],
            ),
        }
    }

    /// What the directives of `MyEnum` ask for.
    pub open spec fn rendered(self) -> Seq<char> {
        match self {
            MyEnum::A { x } => "A: "@ + signed_decimal(x as int),
            MyEnum::B(text) => "B: "@ + text@,
            MyEnum::C => "C: Unit"@,
        }
    }

    /// The declaration of `MyEnum`.
    pub fn declaration() -> (declaration: TypeDeclaration)
        ensures
            declaration@ == Self::declared(),
    {
        let names = vec![String::from_str("x")];
        assert(views(names@) =~= seq!["x"@]);
        let cases = vec![
            CaseDeclaration {
                name: String::from_str("A"),
                shape: FieldShape::Named(names),
                annotations: directive_only("\"A: {}\", x"),
            },
            CaseDeclaration {
                name: String::from_str("B"),
                shape: FieldShape::Positional(1),
                annotations: directive_only("\"B: {}\", _0"),
            },
            CaseDeclaration {
                name: String::from_str("C"),
                shape: FieldShape::NoField,
                annotations: directive_only("\"C: Unit\""),
            },
        ];
        assert(views(cases@) =~= Self::declared().kind->Sum_0);
        let annotations: Vec<Annotation> = Vec::new();
        assert(views(annotations@) =~= Seq::<crate::declaration::AnnotationView>::empty());
        TypeDeclaration {
            name: String::from_str("MyEnum"),
            generics: borrowing(),
            annotations,
            kind: DeclarationKind::Sum(cases),
        }
    }

    /// Renders the value as its directive asks.
    pub fn render(&self) -> (text: String)
        ensures
            text@ == self.rendered(),
    {
        match self {
            MyEnum::A { x } => {
                let mut text = String::from_str("A: ");
                append_signed_decimal(&mut text, *x);
                text
            },
            MyEnum::B(inner) => {
                let mut text = String::from_str("B: ");
                text.append(inner);
                text
            },
            MyEnum::C => String::from_str("C: Unit"),
        }
    }
}

/// A product type with named fields.
#[derive(Debug)]
pub struct NamedFields<'a> {
    pub x: i32,
    pub y: i32,
    pub s: &'a str,
}

impl<'a> NamedFields<'a> {
    /// The declaration of `NamedFields`.
    pub open spec fn declared() -> TypeDeclarationView {
        TypeDeclarationView {
            name: "NamedFields"@,
            generics: one_lifetime(),
            annotations: seq![
                directive_with("\"NamedFields: x = {}, y = {}, s = {}\", x, y, s"@),
            ],
            kind: DeclarationKindView::Product(FieldShapeView::Named(seq!["x"@, "y"@, "s"@])),
        }
    }

    /// What the directive of `NamedFields` asks for.
    pub open spec fn rendered(self) -> Seq<char> {
        "NamedFields: x = "@ + signed_decimal(self.x as int) + ", y = "@ + signed_decimal(
            self.y as int,
        ) + ", s = "@ + self.s@
    }

    /// The declaration of `NamedFields`.
    pub fn declaration() -> (declaration: TypeDeclaration)
        ensures
            declaration@ == Self::declared(),
    {
        let names = vec![String::from_str("x"), String::from_str("y"), String::from_str("s")];
        assert(views(names@) =~= seq!["x"@, "y"@, "s"@]);
        TypeDeclaration {
            name: String::from_str("NamedFields"),
            generics: borrowing(),
            annotations: directive_only("\"NamedFields: x = {}, y = {}, s = {}\", x, y, s"),
            kind: DeclarationKind::Product(FieldShape::Named(names)),
        }
    }

    /// Renders the value as its directive asks.
    pub fn render(&self) -> (text: String)
        ensures
            text@ == self.rendered(),
    {
        let mut text = String::from_str("NamedFields: x = ");
        append_signed_decimal(&mut text, self.x);
        text.append(", y = ");
        append_signed_decimal(&mut text, self.y);
        text.append(", s = ");
        text.append(self.s);
        text
    }
}

/// A product type without fields.
#[derive(Debug)]
pub struct UnitStruct;

impl UnitStruct {
    /// The declaration of `UnitStruct`.
    pub open spec fn declared() -> TypeDeclarationView {
        TypeDeclarationView {
            name: "UnitStruct"@,
            generics: no_generics(),
            annotations: seq![directive_with("\"UnitStruct\""@)],
            kind: DeclarationKindView::Product(FieldShapeView::NoField),
        }
    }

    /// What the directive of `UnitStruct` asks for.
    pub open spec fn rendered(self) -> Seq<char> {
        "UnitStruct"@
    }

    /// The declaration of `UnitStruct`.
    pub fn declaration() -> (declaration: TypeDeclaration)
        ensures
            declaration@ == Self::declared(),
    {
        TypeDeclaration {
            name: String::from_str("UnitStruct"),
            generics: owning(),
            annotations: directive_only("\"UnitStruct\""),
            kind: DeclarationKind::Product(FieldShape::NoField),
        }
    }

    /// Renders the value as its directive asks.
    pub fn render(&self) -> (text: String)
        ensures
            text@ == self.rendered(),
    {
        String::from_str("UnitStruct")
    }
}

/// A product type with positional fields.
#[derive(Debug)]
pub struct TupleFields<'a>(pub i32, pub i32, pub &'a str);

impl<'a> TupleFields<'a> {
    /// The declaration of `TupleFields`.
    pub open spec fn declared() -> TypeDeclarationView {
        TypeDeclarationView {
            name: "TupleFields"@,
            generics: one_lifetime(),
            annotations: seq![directive_with("\"TupleFields: {} {} {}\", _0, _1, _2"@)],
            kind: DeclarationKindView::Product(FieldShapeView::Positional(3)),
        }
    }

    /// What the directive of `TupleFields` asks for.
    pub open spec fn rendered(self) -> Seq<char> {
        "TupleFields: "@ + signed_decimal(self.0 as int) + " "@ + signed_decimal(self.1 as int)
            + " "@ + self.2@
    }

    /// The declaration of `TupleFields`.
    pub fn declaration() -> (declaration: TypeDeclaration)
        ensures
            declaration@ == Self::declared(),
    {
        TypeDeclaration {
            name: String::from_str("TupleFields"),
            generics: borrowing(),
            annotations: directive_only("\"TupleFields: {} {} {}\", _0, _1, _2"),
            kind: DeclarationKind::Product(FieldShape::Positional(3)),
        }
    }

    /// Renders the value as its directive asks.
    pub fn render(&self) -> (text: String)
        ensures
            text@ == self.rendered(),
    {
        let mut text = String::from_str("TupleFields: ");
        append_signed_decimal(&mut text, self.0);
        text.append(" ");
        append_signed_decimal(&mut text, self.1);
        text.append(" ");
        text.append(self.2);
        text
    }
}

} // verus!
