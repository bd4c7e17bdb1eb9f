//! Generation for product types: one binding step and one render call.

use vstd::prelude::*;
use crate::binding::{bind_fields, bindings_of};
use crate::declaration::{
    DeclarationKind,
    FieldShape,
    FieldShapeView,
    Generics,
    GenericsView,
    TypeDeclaration,
    TypeDeclarationView,
};
use crate::directive::{
    can_read,
    find_directive,
    first_directive,
    parse_display_attribute,
    FormatSpec,
    FormatSpecView,
    Reading,
};
use crate::error::{ErrorKind, GenerateError, Target};
use crate::header::{header_of, implementation_header};
use crate::model::result_view;
use crate::output::{Body, BodyView, Implementation, ImplementationView};
use crate::shape::{validate_body, validated};

verus! {

/// A product type with its directive read.
#[derive(Debug)]
pub struct StructReceiver {
    pub name: String,
    pub generics: Generics,
    pub format: FormatSpec,
}

/// The model of a [`StructReceiver`].
pub struct StructReceiverView {
    pub name: Seq<char>,
    pub generics: GenericsView,
    pub format: FormatSpecView,
}

impl View for StructReceiver {
    type V = StructReceiverView;

    open spec fn view(&self) -> StructReceiverView {
        StructReceiverView { name: self.name@, generics: self.generics@, format: self.format@ }
    }
}

/// Whether `reading` can come of reading the directive of a product type.
/// It says nothing where the declaration is no product type or carries no
/// directive.
pub open spec fn struct_reading(input: TypeDeclarationView, reading: Reading) -> bool {
    input.kind is Product ==> match first_directive(input.annotations) {
        Some(annotation) => can_read(annotation, reading),
        None => true,
    }
}

/// A declaration read as a product type, its directive read as `reading`:
/// it must be a product type, it must carry a directive, and the reading
/// must be a directive.
pub open spec fn struct_receiver_with(input: TypeDeclarationView, reading: Reading) -> Result<
    StructReceiverView,
    GenerateError,
> {
    match validated(input.kind) {
        Err(error) => Err(error),
        Ok(_) => match first_directive(input.annotations) {
            Some(_) => match reading {
                Ok(format) => Ok(
                    StructReceiverView { name: input.name, generics: input.generics, format },
                ),
                Err(error) => Err(error),
            },
            None => Err(GenerateError::at(ErrorKind::MissingDirective, Target::Declaration)),
        },
    }
}

/// The implementation for a product type with the field shape `shape`: a
/// step that binds the fields, and one render call with the directive of
/// the type.
pub open spec fn struct_implementation_of(
    receiver: StructReceiverView,
    shape: FieldShapeView,
) -> ImplementationView {
    ImplementationView {
        ty: receiver.name,
        header: header_of(receiver.generics),
        body: BodyView::Direct { bindings: bindings_of(shape), call: receiver.format },
    }
}

/// What generation makes of a declaration taken as a product type, its
/// directive read as `reading`.
pub open spec fn generated_struct(input: TypeDeclarationView, reading: Reading) -> Result<
    ImplementationView,
    GenerateError,
> {
    match struct_receiver_with(input, reading) {
        Ok(receiver) => Ok(struct_implementation_of(receiver, input.kind->Product_0)),
        Err(error) => Err(error),
    }
}

impl StructReceiver {
    /// Reads a declaration as a product type.
    ///
    /// Fails where the declaration is of another kind, with
    /// `MissingDirective` where it carries no directive, and with the error
    /// of the reading where the directive is not valid. The result is
    /// stated for whatever the reading of the directive gave.
    pub fn from_derive_input(input: &TypeDeclaration) -> (receiver: Result<
        StructReceiver,
        GenerateError,
    >)
        ensures
            exists|reading: Reading|
                struct_reading(input@, reading) && result_view(receiver)
                    == #[trigger] struct_receiver_with(input@, reading),
    {
        match validate_body(&input.kind) {
            Err(error) => {
                assert(Err::<StructReceiverView, GenerateError>(error) == struct_receiver_with(
                    input@,
                    Err(error),
                ));
                Err(error)
            },
            Ok(_) => match find_directive(&input.annotations) {
                Some(attr) => match parse_display_attribute(attr) {
                    Ok(format) => {
                        let receiver = StructReceiver {
                            name: input.name.clone(),
                            generics: input.generics.duplicate(),
                            format,
                        };
                        assert(Ok::<StructReceiverView, GenerateError>(receiver@)
                            == struct_receiver_with(input@, Ok(receiver.format@)));
                        Ok(receiver)
                    },
                    Err(error) => {
                        assert(Err::<StructReceiverView, GenerateError>(error)
                            == struct_receiver_with(input@, Err(error)));
                        Err(error)
                    },
                },
                None => {
                    let error = GenerateError::new(
                        ErrorKind::MissingDirective,
                        Target::Declaration,
                    );
                    assert(Err::<StructReceiverView, GenerateError>(error) == struct_receiver_with(
                        input@,
                        Err(error),
                    ));
                    Err(error)
                },
            },
        }
    }
}

/// Assembles the implementation for a product type whose directive is read.
pub fn struct_implementation(receiver: &StructReceiver, shape: &FieldShape) -> (implementation:
    Implementation)
    ensures
        implementation@ == struct_implementation_of(receiver@, shape@),
{
    Implementation {
        ty: receiver.name.clone(),
        header: implementation_header(&receiver.generics),
        body: Body::Direct { bindings: bind_fields(shape), call: receiver.format.duplicate() },
    }
}

/// Generates the implementation for a product type.
///
/// The type must carry a valid directive. Every field shape is accepted.
/// The result is stated for whatever the reading of the directive gave.
pub fn parse_struct(input: &TypeDeclaration) -> (implementation: Result<
    Implementation,
    GenerateError,
>)
    ensures
        exists|reading: Reading|
            struct_reading(input@, reading) && result_view(implementation)
                == #[trigger] generated_struct(input@, reading),
{
    let receiver = StructReceiver::from_derive_input(input);
    let ghost reading = choose|reading: Reading|
        struct_reading(input@, reading) && result_view(receiver) == #[trigger] struct_receiver_with(
            input@,
            reading,
        );
    match receiver {
        Ok(receiver) => match &input.kind {
            DeclarationKind::Product(shape) => {
                let implementation = struct_implementation(&receiver, shape);
                assert(Ok::<ImplementationView, GenerateError>(implementation@)
                    == generated_struct(input@, reading));
                Ok(implementation)
            },
            _ => {
                proof {
                    assert(validated(input@.kind) is Err);
                }
                Err(GenerateError::new(ErrorKind::UnsupportedShape, Target::Declaration))
            },
        },
        Err(error) => {
            assert(Err::<ImplementationView, GenerateError>(error) == generated_struct(
                input@,
                reading,
            ));
            Err(error)
        },
    }
}

} // verus!
