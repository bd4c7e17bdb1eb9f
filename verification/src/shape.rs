//! Validation of the field shape of a product type.

use vstd::prelude::*;
use darling::util::ShapeSet;
use crate::declaration::{DeclarationKind, DeclarationKindView, FieldShape, FieldShapeView};
use crate::error::{ErrorKind, GenerateError, Target};

verus! {

/// The syntactic layouts that are told apart when a shape is checked.
#[derive(Clone, Copy, Debug, PartialEq, Eq)]
pub enum Shape {
    /// Named fields.
    Named,
    /// Positional fields.
    Tuple,
    /// No fields.
    Unit,
    /// Exactly one positional field.
    Newtype,
}

/// The layout that a field shape belongs to.
pub open spec fn shape_of(fields: FieldShapeView) -> Shape {
    match fields {
        FieldShapeView::NoField => Shape::Unit,
        FieldShapeView::Positional(n) => if n == 1 {
            Shape::Newtype
        } else {
            Shape::Tuple
        },
        FieldShapeView::Named(_) => Shape::Named,
    }
}

/// Whether a set that was made of `shapes` lets `shape` pass: it holds the
/// shape itself, or the shape is a single positional field and the set holds
/// positional fields in general.
pub open spec fn accepts(shapes: Set<Shape>, shape: Shape) -> bool {
    shapes.contains(shape) || (shape == Shape::Newtype && shapes.contains(Shape::Tuple))
}

/// `darling`'s set of shapes.
#[verifier::external_type_specification]
#[verifier::external_body]
pub struct ExShapeSet(ShapeSet);

/// `darling`'s error type.
#[verifier::external_type_specification]
#[verifier::external_body]
pub struct ExDarlingError(darling::Error);

/// The shapes that were put into a `darling` shape set.
pub uninterp spec fn shapes_in(set: ShapeSet) -> Set<Shape>;

/// Makes a shape set with `ShapeSet::new`, which inserts each item in turn
/// into an empty set: the set holds the listed shapes and no others.
#[verifier::external_body]
fn shape_set_of(items: &Vec<Shape>) -> (set: ShapeSet)
    ensures
        shapes_in(set) == items@.to_set(),
{
    ShapeSet::new(items.iter().map(|shape| match shape {
        Shape::Named => darling::util::Shape::Named,
        Shape::Tuple => darling::util::Shape::Tuple,
        Shape::Unit => darling::util::Shape::Unit,
        Shape::Newtype => darling::util::Shape::Newtype,
    }))
}

/// Checks a layout with `ShapeSet::check`, which returns `Ok` where the set
/// holds the layout, or the layout is a single positional field and the set
/// holds positional fields; an error otherwise.
#[verifier::external_body]
fn check_shape(set: &ShapeSet, shape: Shape) -> (checked: Result<(), darling::Error>)
    ensures
        checked is Ok <==> accepts(shapes_in(*set), shape),
{
    set.check(&match shape {
        Shape::Named => darling::util::Shape::Named,
        Shape::Tuple => darling::util::Shape::Tuple,
        Shape::Unit => darling::util::Shape::Unit,
        Shape::Newtype => darling::util::Shape::Newtype,
    })
}

/// Tells which layout a field shape belongs to.
pub fn classify(fields: &FieldShape) -> (shape: Shape)
    ensures
        shape == shape_of(fields@),
{
    match fields {
        FieldShape::NoField => Shape::Unit,
        FieldShape::Positional(count) => if *count == 1 {
            Shape::Newtype
        } else {
            Shape::Tuple
        },
        FieldShape::Named(_) => Shape::Named,
    }
}

/// What [`validate_body`] returns: a product type passes whatever its field
/// shape is, any other kind is refused.
pub open spec fn validated(kind: DeclarationKindView) -> Result<(), GenerateError> {
    match kind {
        DeclarationKindView::Product(_) => Ok(()),
        DeclarationKindView::Sum(_) => Err(
            GenerateError::at(ErrorKind::UnsupportedShape, Target::Declaration),
        ),
        DeclarationKindView::Union => Err(
            GenerateError::at(ErrorKind::UnsupportedKind, Target::Declaration),
        ),
    }
}

/// Confirms that a declaration is a product type whose field shape is one of
/// the accepted ones: named fields, positional fields, a single positional
/// field, or no fields.
pub fn validate_body(kind: &DeclarationKind) -> (checked: Result<(), GenerateError>)
    ensures
        checked == validated(kind@),
{
    match kind {
        DeclarationKind::Product(fields) => {
            let accepted = vec![Shape::Named, Shape::Tuple, Shape::Newtype, Shape::Unit];
            let struct_check = shape_set_of(&accepted);
            proof {
                assert(accepted@[0] == Shape::Named);
                assert(accepted@[1] == Shape::Tuple);
                assert(accepted@[2] == Shape::Newtype);
                assert(accepted@[3] == Shape::Unit);
                assert(accepted@.contains(shape_of(fields@)));
            }
            match check_shape(&struct_check, classify(fields)) {
                Ok(()) => Ok(()),
                Err(_) => Err(GenerateError::new(ErrorKind::UnsupportedShape, Target::Declaration)),
            }
        },
        DeclarationKind::Sum(_) => Err(
            GenerateError::new(ErrorKind::UnsupportedShape, Target::Declaration),
        ),
        DeclarationKind::Union => Err(GenerateError::new(ErrorKind::UnsupportedKind, Target::Declaration)),
    }
}

} // verus!
