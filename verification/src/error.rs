//! The fatal errors of generation and what they are attributed to.

use vstd::prelude::*;

verus! {

/// Why generation failed.
#[derive(Clone, Copy, Debug, PartialEq, Eq)]
pub enum ErrorKind {
    /// A case, or a product type, carries no directive.
    MissingDirective,
    /// The directive is not a list in round brackets.
    MalformedDirective,
    /// The list of the directive is no list of expressions.
    MalformedArguments,
    /// The first item of the directive is absent or no string literal.
    MissingOrInvalidTemplate,
    /// The declaration is a union.
    UnsupportedKind,
    /// The declaration is of another kind than the one that the function
    /// works on.
    UnsupportedShape,
}

/// What an error points at.
#[derive(Clone, Copy, Debug, PartialEq, Eq)]
pub enum Target {
    /// The declaration as a whole.
    Declaration,
    /// A case as a whole.
    Case,
    /// The directive of the declaration or of a case.
    Directive,
    /// The expression at this position in that directive.
    Expression(usize),
}

/// A fatal error of generation.
///
/// `case` is the position of the case that the error belongs to. Functions
/// that work on one case or on one annotation do not know it and leave it
/// `None`; those that work on a whole sum type fill it in. The message
/// does not depend on it.
#[derive(Clone, Copy, Debug, PartialEq, Eq)]
pub struct GenerateError {
    pub kind: ErrorKind,
    pub case: Option<usize>,
    pub target: Target,
}

impl GenerateError {
    /// An error without the position of a case.
    pub open spec fn at(kind: ErrorKind, target: Target) -> GenerateError {
        GenerateError { kind, case: None, target }
    }

    /// The same error, belonging to the case at position `case`.
    pub open spec fn of_case(self, case: usize) -> GenerateError {
        GenerateError { kind: self.kind, case: Some(case), target: self.target }
    }

    /// The text of [`GenerateError::message`].
    pub open spec fn message_text(self) -> Seq<char> {
        match self.kind {
            ErrorKind::MissingDirective => if self.target is Case {
                "every case must carry a display directive"@
            } else {
                "struct must carry a display directive"@
            },
            ErrorKind::MalformedDirective => "Invalid directive format"@,
            ErrorKind::MalformedArguments => "Invalid #[display] arguments"@,
            ErrorKind::MissingOrInvalidTemplate => "Expected a string literal"@,
            ErrorKind::UnsupportedKind => "unions are not supported"@,
            ErrorKind::UnsupportedShape => "unsupported shape"@,
        }
    }

    /// An error without the position of a case.
    pub fn new(kind: ErrorKind, target: Target) -> (error: GenerateError)
        ensures
            error == GenerateError::at(kind, target),
    {
        GenerateError { kind, case: None, target }
    }

    /// The same error, belonging to the case at position `case`.
    pub fn in_case(self, case: usize) -> (error: GenerateError)
        ensures
            error == self.of_case(case),
    {
        GenerateError { kind: self.kind, case: Some(case), target: self.target }
    }

    /// The message of the error for the user.
    pub fn message(&self) -> (text: &'static str)
        ensures
            text@ == self.message_text(),
    {
        match self.kind {
            ErrorKind::MissingDirective => match self.target {
                Target::Case => "every case must carry a display directive",
                _ => "struct must carry a display directive",
            },
            ErrorKind::MalformedDirective => "Invalid directive format",
            ErrorKind::MalformedArguments => "Invalid #[display] arguments",
            ErrorKind::MissingOrInvalidTemplate => "Expected a string literal",
            ErrorKind::UnsupportedKind => "unions are not supported",
            ErrorKind::UnsupportedShape => "unsupported shape",
        }
    }
}

} // verus!
