//! The generic parameters of the generated implementation.

use vstd::prelude::*;
use crate::declaration::{Generics, GenericsView, TypeParameterView};
use crate::model::{clone_text, clone_texts, text_of, views};

verus! {

/// The generic parameters of a generated implementation. A default
/// binding is not allowed there, so a type parameter is held as its text
/// alone.
#[derive(Debug)]
pub struct GeneratedHeader {
    /// The borrow-scope parameters with their bounds, in order.
    pub lifetimes: Vec<String>,
    /// The type parameters with their bounds, in order.
    pub type_params: Vec<String>,
    /// The constraint clause, from its keyword on.
    pub where_clause: Option<String>,
}

/// The model of a [`GeneratedHeader`].
pub struct GeneratedHeaderView {
    pub lifetimes: Seq<Seq<char>>,
    pub type_params: Seq<Seq<char>>,
    pub where_clause: Option<Seq<char>>,
}

impl View for GeneratedHeader {
    type V = GeneratedHeaderView;

    open spec fn view(&self) -> GeneratedHeaderView {
        GeneratedHeaderView {
            lifetimes: views(self.lifetimes@),
            type_params: views(self.type_params@),
            where_clause: text_of(self.where_clause),
        }
    }
}

/// The header for a declaration with the parameters `generics`: the same
/// borrow-scope parameters, each type parameter without its default
/// binding, and the same constraint clause.
pub open spec fn header_of(generics: GenericsView) -> GeneratedHeaderView {
    GeneratedHeaderView {
        lifetimes: generics.lifetimes,
        type_params: generics.type_params.map_values(|param: TypeParameterView| param.text),
        where_clause: generics.where_clause,
    }
}

/// Builds the header of the implementation from the parameters of the
/// declaration. Each default binding is left out; all else is carried over
/// as it stands.
pub fn implementation_header(generics: &Generics) -> (header: GeneratedHeader)
    ensures
        header@ == header_of(generics@),
{
    let mut type_params: Vec<String> = Vec::new();
    let mut i: usize = 0;
    while i < generics.type_params.len()
        invariant
            i <= generics.type_params.len(),
            type_params.len() == i,
            forall|j: int| 0 <= j < i ==> type_params[j]@ == generics.type_params[j]@.text,
        decreases generics.type_params.len() - i,
    {
        type_params.push(generics.type_params[i].text.clone());
        i += 1;
    }
    assert(views(type_params@) =~= views(generics.type_params@).map_values(
        |param: TypeParameterView| param.text,
    ));
    GeneratedHeader {
        lifetimes: clone_texts(&generics.lifetimes),
        type_params,
        where_clause: clone_text(&generics.where_clause),
    }
}

} // verus!
