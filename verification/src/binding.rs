//! The identifiers that a pattern binds to the fields of a shape.

use vstd::prelude::*;
use vstd::string::*;
use crate::declaration::{FieldShape, FieldShapeView};
use crate::model::{clone_texts, views};
use crate::text::{append_decimal, decimal};

verus! {

/// The identifiers that a pattern binds, by the form of the pattern.
#[derive(Debug)]
pub enum Bindings {
    /// No pattern behind the path.
    Unit,
    /// Identifiers in round brackets, one for each positional field.
    Tuple(Vec<String>),
    /// Identifiers in braces, one for each named field.
    Record(Vec<String>),
}

/// The model of [`Bindings`].
pub enum BindingsView {
    Unit,
    Tuple(Seq<Seq<char>>),
    Record(Seq<Seq<char>>),
}

impl View for Bindings {
    type V = BindingsView;

    open spec fn view(&self) -> BindingsView {
        match self {
            Bindings::Unit => BindingsView::Unit,
            Bindings::Tuple(names) => BindingsView::Tuple(views(names@)),
            Bindings::Record(names) => BindingsView::Record(views(names@)),
        }
    }
}

/// The identifier for the positional field at `index`: an underscore and
/// the index in decimal.
pub open spec fn positional_name(index: nat) -> Seq<char> {
    seq!['_'] + decimal(index)
}

/// The identifiers for `count` positional fields, in declaration order.
pub open spec fn positional_names(count: nat) -> Seq<Seq<char>> {
    Seq::new(count, |index: int| positional_name(index as nat))
}

/// The bindings for a field shape: none for no fields, `_0`, `_1` and so on
/// for positional fields, the declared names for named fields.
pub open spec fn bindings_of(shape: FieldShapeView) -> BindingsView {
    match shape {
        FieldShapeView::NoField => BindingsView::Unit,
        FieldShapeView::Positional(count) => BindingsView::Tuple(positional_names(count)),
        FieldShapeView::Named(names) => BindingsView::Record(names),
    }
}

/// The identifier for the positional field at `index`.
pub fn positional_ident(index: usize) -> (name: String)
    ensures
        name@ == positional_name(index as nat),
{
    proof {
        reveal_strlit("_");
    }
    let mut name = String::from_str("_");
    append_decimal(&mut name, index as u64);
    assert(name@ =~= positional_name(index as nat));
    name
}

/// Resolves the identifiers that a pattern binds to the fields of `shape`.
pub fn bind_fields(shape: &FieldShape) -> (bindings: Bindings)
    ensures
        bindings@ == bindings_of(shape@),
{
    match shape {
        FieldShape::NoField => Bindings::Unit,
        FieldShape::Positional(count) => {
            let mut names: Vec<String> = Vec::new();
            let mut index: usize = 0;
            while index < *count
                invariant
                    index <= *count,
                    names.len() == index,
                    forall|j: int| 0 <= j < index ==> names[j]@ == positional_name(j as nat),
                decreases *count - index,
            {
                names.push(positional_ident(index));
                index += 1;
            }
            assert(views(names@) =~= positional_names(*count as nat));
            Bindings::Tuple(names)
        },
        FieldShape::Named(declared) => Bindings::Record(clone_texts(declared)),
    }
}

} // verus!
