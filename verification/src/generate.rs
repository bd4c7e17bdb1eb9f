//! Generation for a declaration of any kind.

use vstd::prelude::*;
use crate::declaration::{DeclarationKind, DeclarationKindView, TypeDeclaration, TypeDeclarationView};
use crate::directive::Reading;
use crate::error::{ErrorKind, GenerateError, Target};
use crate::impl_enum::{enum_readings, generated_enum, parse_enum};
use crate::impl_struct::{generated_struct, parse_struct, struct_reading};
use crate::model::result_view;
use crate::output::{source_text, Implementation, ImplementationView};

verus! {

/// What reading the directives of a declaration gave.
pub struct Readings {
    /// The reading of the directive of the type itself.
    pub whole: Reading,
    /// The reading of the directive of each case, in declaration order.
    pub cases: Seq<Reading>,
}

/// Whether the readings can come of reading the directives of the
/// declaration: those of the cases for a sum type, that of the type for a
/// product type.
pub open spec fn can_read_all(input: TypeDeclarationView, readings: Readings) -> bool {
    &&& enum_readings(input, readings.cases)
    &&& struct_reading(input, readings.whole)
}

/// What generation makes of a declaration whose directives were read as
/// `readings`: the implementation for a sum type or for a product type,
/// and an error for a union.
pub open spec fn generated(input: TypeDeclarationView, readings: Readings) -> Result<
    ImplementationView,
    GenerateError,
> {
    match input.kind {
        DeclarationKindView::Sum(_) => generated_enum(input, readings.cases),
        DeclarationKindView::Product(_) => generated_struct(input, readings.whole),
        DeclarationKindView::Union => Err(
            GenerateError::at(ErrorKind::UnsupportedKind, Target::Declaration),
        ),
    }
}

/// The source text that generation emits for a declaration whose
/// directives were read as `readings`.
pub open spec fn generated_source(input: TypeDeclarationView, readings: Readings) -> Result<
    Seq<char>,
    GenerateError,
> {
    match generated(input, readings) {
        Ok(implementation) => Ok(source_text(implementation)),
        Err(error) => Err(error),
    }
}

/// Generates the implementation for a declaration, by its kind.
///
/// A union is refused at once, whatever else it holds. For the other kinds
/// the result is stated for whatever the readings of the directives gave.
pub fn expand(input: &TypeDeclaration) -> (implementation: Result<Implementation, GenerateError>)
    ensures
        exists|readings: Readings|
            can_read_all(input@, readings) && result_view(implementation) == #[trigger] generated(
                input@,
                readings,
            ),
{
    match &input.kind {
        DeclarationKind::Sum(_) => {
            let implementation = parse_enum(input);
            proof {
                let cases = choose|cases: Seq<Reading>|
                    enum_readings(input@, cases) && result_view(implementation)
                        == #[trigger] generated_enum(input@, cases);
                let readings = Readings {
                    whole: Err(GenerateError::at(ErrorKind::MissingDirective, Target::Declaration)),
                    cases,
                };
                assert(result_view(implementation) == generated(input@, readings));
            }
            implementation
        },
        DeclarationKind::Product(_) => {
            let implementation = parse_struct(input);
            proof {
                let whole = choose|whole: Reading|
                    struct_reading(input@, whole) && result_view(implementation)
                        == #[trigger] generated_struct(input@, whole);
                let readings = Readings { whole, cases: Seq::empty() };
                assert(result_view(implementation) == generated(input@, readings));
            }
            implementation
        },
        DeclarationKind::Union => {
            let error = GenerateError::new(ErrorKind::UnsupportedKind, Target::Declaration);
            proof {
                let readings = Readings { whole: Err(error), cases: Seq::empty() };
                assert(Err::<ImplementationView, GenerateError>(error) == generated(
                    input@,
                    readings,
                ));
            }
            Err(error)
        },
    }
}

/// Generates the source text of the `std::fmt::Display` implementation for
/// a declaration: all of it, or the first fatal error and no text.
pub fn derive_display(input: &TypeDeclaration) -> (source: Result<String, GenerateError>)
    ensures
        exists|readings: Readings|
            can_read_all(input@, readings) && result_view(source) == #[trigger] generated_source(
                input@,
                readings,
            ),
{
    let implementation = expand(input);
    let ghost readings = choose|readings: Readings|
        can_read_all(input@, readings) && result_view(implementation) == #[trigger] generated(
            input@,
            readings,
        );
    match implementation {
        Ok(implementation) => {
            let source = implementation.to_source();
            assert(Ok::<Seq<char>, GenerateError>(source@) == generated_source(input@, readings));
            Ok(source)
        },
        Err(error) => {
            assert(Err::<Seq<char>, GenerateError>(error) == generated_source(input@, readings));
            Err(error)
        },
    }
}

} // verus!
