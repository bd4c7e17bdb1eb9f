//! The input of generation: a declaration as plain data.

use vstd::prelude::*;
use vstd::string::*;
use crate::model::{clone_text, clone_texts, text_of, views};

verus! {

/// How the fields of a product type or of a case are laid out.
#[derive(Debug)]
pub enum FieldShape {
    /// No fields, as in `struct Marker;`.
    NoField,
    /// This many positional fields, as in `struct Pair(u8, u8);`.
    Positional(usize),
    /// Named fields, by name and in declaration order.
    Named(Vec<String>),
}

/// The model of a [`FieldShape`].
pub enum FieldShapeView {
    NoField,
    Positional(nat),
    Named(Seq<Seq<char>>),
}

impl View for FieldShape {
    type V = FieldShapeView;

    open spec fn view(&self) -> FieldShapeView {
        match self {
            FieldShape::NoField => FieldShapeView::NoField,
            FieldShape::Positional(n) => FieldShapeView::Positional(*n as nat),
            FieldShape::Named(names) => FieldShapeView::Named(views(names@)),
        }
    }
}

impl FieldShape {
    /// A copy of the shape.
    pub fn duplicate(&self) -> (copy: FieldShape)
        ensures
            copy@ == self@,
    {
        match self {
            FieldShape::NoField => FieldShape::NoField,
            FieldShape::Positional(count) => FieldShape::Positional(*count),
            FieldShape::Named(names) => FieldShape::Named(clone_texts(names)),
        }
    }
}

/// The brackets around the list of an annotation.
#[derive(Clone, Copy, Debug, PartialEq, Eq)]
pub enum Delimiter {
    /// Round brackets.
    Parenthesis,
    /// Square brackets.
    Bracket,
    /// Braces.
    Brace,
}

/// What follows the path of an annotation.
#[derive(Debug)]
pub enum AnnotationForm {
    /// Nothing, as in `#[display]`.
    Word,
    /// A list in brackets, as in `#[display("{}", x)]`; `tokens` is what
    /// stands between the brackets.
    List { delimiter: Delimiter, tokens: String },
    /// An assignment, as in `#[display = "x"]`.
    Assignment,
}

/// The model of an [`AnnotationForm`].
pub enum AnnotationFormView {
    Word,
    List { delimiter: Delimiter, tokens: Seq<char> },
    Assignment,
}

impl View for AnnotationForm {
    type V = AnnotationFormView;

    open spec fn view(&self) -> AnnotationFormView {
        match self {
            AnnotationForm::Word => AnnotationFormView::Word,
            AnnotationForm::List { delimiter, tokens } => AnnotationFormView::List {
                delimiter: *delimiter,
                tokens: tokens@,
            },
            AnnotationForm::Assignment => AnnotationFormView::Assignment,
        }
    }
}

/// One annotation of a declaration or of a case.
#[derive(Debug)]
pub struct Annotation {
    /// The path that names the annotation, as written.
    pub path: String,
    /// What follows the path.
    pub form: AnnotationForm,
}

/// The model of an [`Annotation`].
pub struct AnnotationView {
    pub path: Seq<char>,
    pub form: AnnotationFormView,
}

impl View for Annotation {
    type V = AnnotationView;

    open spec fn view(&self) -> AnnotationView {
        AnnotationView { path: self.path@, form: self.form@ }
    }
}

/// The annotation that gives a node the directive with the list `tokens`.
pub open spec fn directive_with(tokens: Seq<char>) -> AnnotationView {
    AnnotationView {
        path: "display"@,
        form: AnnotationFormView::List { delimiter: Delimiter::Parenthesis, tokens },
    }
}

impl Annotation {
    /// The annotation that gives a node the directive with the list
    /// `tokens`, as in `#[display("{}", x)]` for the list `"{}", x`.
    pub fn directive(tokens: &str) -> (annotation: Annotation)
        ensures
            annotation@ == directive_with(tokens@),
    {
        Annotation {
            path: String::from_str("display"),
            form: AnnotationForm::List {
                delimiter: Delimiter::Parenthesis,
                tokens: String::from_str(tokens),
            },
        }
    }
}

/// A type parameter of a declaration.
#[derive(Debug)]
pub struct TypeParameter {
    /// The parameter with its bounds and without its default, as in
    /// `T: Clone`.
    pub text: String,
    /// The default binding, if the declaration gives one.
    pub default: Option<String>,
}

/// The model of a [`TypeParameter`].
pub struct TypeParameterView {
    pub text: Seq<char>,
    pub default: Option<Seq<char>>,
}

impl View for TypeParameter {
    type V = TypeParameterView;

    open spec fn view(&self) -> TypeParameterView {
        TypeParameterView { text: self.text@, default: text_of(self.default) }
    }
}

/// The generic parameters of a declaration or of an implementation.
#[derive(Debug)]
pub struct Generics {
    /// The borrow-scope parameters with their bounds, in order.
    pub lifetimes: Vec<String>,
    /// The type parameters, in order.
    pub type_params: Vec<TypeParameter>,
    /// The constraint clause, from its keyword on.
    pub where_clause: Option<String>,
}

/// The model of [`Generics`].
pub struct GenericsView {
    pub lifetimes: Seq<Seq<char>>,
    pub type_params: Seq<TypeParameterView>,
    pub where_clause: Option<Seq<char>>,
}

impl View for Generics {
    type V = GenericsView;

    open spec fn view(&self) -> GenericsView {
        GenericsView {
            lifetimes: views(self.lifetimes@),
            type_params: views(self.type_params@),
            where_clause: text_of(self.where_clause),
        }
    }
}

impl Generics {
    /// A copy of the parameters.
    pub fn duplicate(&self) -> (copy: Generics)
        ensures
            copy@ == self@,
    {
        let mut type_params: Vec<TypeParameter> = Vec::new();
        let mut i: usize = 0;
        while i < self.type_params.len()
            invariant
                i <= self.type_params.len(),
                type_params.len() == i,
                forall|j: int| 0 <= j < i ==> type_params[j]@ == self.type_params[j]@,
            decreases self.type_params.len() - i,
        {
            let param = &self.type_params[i];
            type_params.push(
                TypeParameter { text: param.text.clone(), default: clone_text(&param.default) },
            );
            i += 1;
        }
        assert(views(type_params@) =~= views(self.type_params@));
        Generics {
            lifetimes: clone_texts(&self.lifetimes),
            type_params,
            where_clause: clone_text(&self.where_clause),
        }
    }
}

/// One case of a sum type, as declared.
#[derive(Debug)]
pub struct CaseDeclaration {
    pub name: String,
    pub shape: FieldShape,
    pub annotations: Vec<Annotation>,
}

/// The model of a [`CaseDeclaration`].
pub struct CaseDeclarationView {
    pub name: Seq<char>,
    pub shape: FieldShapeView,
    pub annotations: Seq<AnnotationView>,
}

impl View for CaseDeclaration {
    type V = CaseDeclarationView;

    open spec fn view(&self) -> CaseDeclarationView {
        CaseDeclarationView {
            name: self.name@,
            shape: self.shape@,
            annotations: views(self.annotations@),
        }
    }
}

/// The kind of a declaration, with what belongs to that kind.
#[derive(Debug)]
pub enum DeclarationKind {
    /// A sum type with its cases in declaration order.
    Sum(Vec<CaseDeclaration>),
    /// A product type with its field shape.
    Product(FieldShape),
    /// A union.
    Union,
}

/// The model of a [`DeclarationKind`].
pub enum DeclarationKindView {
    Sum(Seq<CaseDeclarationView>),
    Product(FieldShapeView),
    Union,
}

impl View for DeclarationKind {
    type V = DeclarationKindView;

    open spec fn view(&self) -> DeclarationKindView {
        match self {
            DeclarationKind::Sum(cases) => DeclarationKindView::Sum(views(cases@)),
            DeclarationKind::Product(shape) => DeclarationKindView::Product(shape@),
            DeclarationKind::Union => DeclarationKindView::Union,
        }
    }
}

/// A declaration of a data type.
#[derive(Debug)]
pub struct TypeDeclaration {
    pub name: String,
    pub generics: Generics,
    /// The annotations of the type itself.
    pub annotations: Vec<Annotation>,
    pub kind: DeclarationKind,
}

/// The model of a [`TypeDeclaration`].
pub struct TypeDeclarationView {
    pub name: Seq<char>,
    pub generics: GenericsView,
    pub annotations: Seq<AnnotationView>,
    pub kind: DeclarationKindView,
}

impl View for TypeDeclaration {
    type V = TypeDeclarationView;

    open spec fn view(&self) -> TypeDeclarationView {
        TypeDeclarationView {
            name: self.name@,
            generics: self.generics@,
            annotations: views(self.annotations@),
            kind: self.kind@,
        }
    }
}

} // verus!
