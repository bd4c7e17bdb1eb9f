//! Generation for sum types: one arm for each case.

use vstd::prelude::*;
use crate::binding::{bind_fields, bindings_of};
use crate::declaration::{
    CaseDeclaration,
    CaseDeclarationView,
    DeclarationKind,
    DeclarationKindView,
    FieldShape,
    FieldShapeView,
    Generics,
    GenericsView,
    TypeDeclaration,
    TypeDeclarationView,
};
use crate::directive::{
    can_read,
    find_directive,
    first_directive,
    parse_display_attribute,
    refusal_of,
    FormatSpec,
    FormatSpecView,
    Reading,
};
use crate::error::{ErrorKind, GenerateError, Target};
use crate::header::{header_of, implementation_header};
use crate::model::{result_view, views};
use crate::output::{Arm, ArmView, Body, BodyView, Implementation, ImplementationView};

verus! {

/// One case of a sum type with its directive read.
#[derive(Debug)]
pub struct Case {
    pub name: String,
    pub shape: FieldShape,
    pub format: FormatSpec,
}

/// The model of a [`Case`].
pub struct CaseView {
    pub name: Seq<char>,
    pub shape: FieldShapeView,
    pub format: FormatSpecView,
}

impl View for Case {
    type V = CaseView;

    open spec fn view(&self) -> CaseView {
        CaseView { name: self.name@, shape: self.shape@, format: self.format@ }
    }
}

/// A sum type with the directives of all its cases read.
#[derive(Debug)]
pub struct EnumReceiver {
    pub name: String,
    pub generics: Generics,
    pub cases: Vec<Case>,
}

/// The model of an [`EnumReceiver`].
pub struct EnumReceiverView {
    pub name: Seq<char>,
    pub generics: GenericsView,
    pub cases: Seq<CaseView>,
}

impl View for EnumReceiver {
    type V = EnumReceiverView;

    open spec fn view(&self) -> EnumReceiverView {
        EnumReceiverView { name: self.name@, generics: self.generics@, cases: views(self.cases@) }
    }
}

/// Whether `reading` can come of reading the directive of a declared case.
/// It says nothing where the case carries no directive.
pub open spec fn case_reading(case: CaseDeclarationView, reading: Reading) -> bool {
    match first_directive(case.annotations) {
        Some(annotation) => can_read(annotation, reading),
        None => true,
    }
}

/// A declared case whose directive was read as `reading`: the case must
/// carry a directive, and the reading must be a directive.
pub open spec fn case_with(case: CaseDeclarationView, reading: Reading) -> Result<
    CaseView,
    GenerateError,
> {
    match first_directive(case.annotations) {
        Some(_) => match reading {
            Ok(format) => Ok(CaseView { name: case.name, shape: case.shape, format }),
            Err(error) => Err(error),
        },
        None => Err(GenerateError::at(ErrorKind::MissingDirective, Target::Case)),
    }
}

/// Whether the readings are one for each case, each of them one that can
/// come of reading the directive of its case.
pub open spec fn readings_fit(cases: Seq<CaseDeclarationView>, readings: Seq<Reading>) -> bool {
    &&& readings.len() == cases.len()
    &&& forall|i: int| 0 <= i < cases.len() ==> #[trigger] case_reading(cases[i], readings[i])
}

/// Whether the case at `index` is the first that fails.
pub open spec fn first_failure_at(
    cases: Seq<CaseDeclarationView>,
    readings: Seq<Reading>,
    index: int,
) -> bool {
    &&& 0 <= index < cases.len()
    &&& case_with(cases[index], readings[index]) is Err
    &&& forall|j: int| 0 <= j < index ==> (#[trigger] case_with(cases[j], readings[j])) is Ok
}

/// The declared cases with their directives, in declaration order; or the
/// error of the first case that fails, with the position of that case.
pub open spec fn cases_with(cases: Seq<CaseDeclarationView>, readings: Seq<Reading>) -> Result<
    Seq<CaseView>,
    GenerateError,
> {
    if exists|index: int| first_failure_at(cases, readings, index) {
        let index = choose|index: int| first_failure_at(cases, readings, index);
        Err(case_with(cases[index], readings[index])->Err_0.of_case(index as usize))
    } else {
        Ok(Seq::new(cases.len(), |i: int| case_with(cases[i], readings[i])->Ok_0))
    }
}

/// Whether the readings fit the cases of a declaration; they are not asked
/// for where it is no sum type.
pub open spec fn enum_readings(input: TypeDeclarationView, readings: Seq<Reading>) -> bool {
    input.kind is Sum ==> readings_fit(input.kind->Sum_0, readings)
}

/// A declaration read as a sum type, the directives of its cases read as
/// `readings`.
pub open spec fn enum_receiver_with(input: TypeDeclarationView, readings: Seq<Reading>) -> Result<
    EnumReceiverView,
    GenerateError,
> {
    match input.kind {
        DeclarationKindView::Sum(cases) => match cases_with(cases, readings) {
            Ok(read) => Ok(
                EnumReceiverView { name: input.name, generics: input.generics, cases: read },
            ),
            Err(error) => Err(error),
        },
        DeclarationKindView::Product(_) => Err(
            GenerateError::at(ErrorKind::UnsupportedShape, Target::Declaration),
        ),
        DeclarationKindView::Union => Err(
            GenerateError::at(ErrorKind::UnsupportedKind, Target::Declaration),
        ),
    }
}

/// The arm for a case: it matches the case, binds its fields, and renders
/// with the directive of the case.
pub open spec fn arm_of(case: CaseView) -> ArmView {
    ArmView { case: case.name, bindings: bindings_of(case.shape), call: case.format }
}

/// The implementation for a sum type: one case analysis with one arm for
/// each case, in declaration order.
pub open spec fn enum_implementation_of(receiver: EnumReceiverView) -> ImplementationView {
    ImplementationView {
        ty: receiver.name,
        header: header_of(receiver.generics),
        body: BodyView::Match(receiver.cases.map_values(|case: CaseView| arm_of(case))),
    }
}

/// What generation makes of a declaration taken as a sum type, the
/// directives of its cases read as `readings`.
pub open spec fn generated_enum(input: TypeDeclarationView, readings: Seq<Reading>) -> Result<
    ImplementationView,
    GenerateError,
> {
    match enum_receiver_with(input, readings) {
        Ok(receiver) => Ok(enum_implementation_of(receiver)),
        Err(error) => Err(error),
    }
}

/// The readings of the cases that were read, then the reading at which
/// reading stopped, then a refusal for each case that was not read.
spec fn readings_stopped(
    cases: Seq<CaseDeclarationView>,
    read: Seq<Reading>,
    last: Reading,
) -> Seq<Reading> {
    Seq::new(
        cases.len(),
        |i: int|
            if i < read.len() {
                read[i]
            } else if i == read.len() {
                last
            } else {
                match first_directive(cases[i].annotations) {
                    Some(annotation) => refusal_of(annotation),
                    None => last,
                }
            },
    )
}

impl Case {
    /// Reads the directive of a declared case.
    ///
    /// Fails with `MissingDirective` where the case carries no directive,
    /// and with the error of the reading where the directive is not valid.
    /// What the reading is, is decided by [`parse_display_attribute`]; the
    /// result is stated for whatever it gave.
    pub fn from_variant(variant: &CaseDeclaration) -> (case: Result<Case, GenerateError>)
        ensures
            exists|reading: Reading|
                case_reading(variant@, reading) && result_view(case) == #[trigger] case_with(
                    variant@,
                    reading,
                ),
    {
        match find_directive(&variant.annotations) {
            Some(attr) => match parse_display_attribute(attr) {
                Ok(format) => {
                    let case = Case {
                        name: variant.name.clone(),
                        shape: variant.shape.duplicate(),
                        format,
                    };
                    assert(Ok::<CaseView, GenerateError>(case@) == case_with(
                        variant@,
                        Ok(case.format@),
                    ));
                    Ok(case)
                },
                Err(error) => {
                    assert(Err::<CaseView, GenerateError>(error) == case_with(
                        variant@,
                        Err(error),
                    ));
                    Err(error)
                },
            },
            None => {
                let error = GenerateError::new(ErrorKind::MissingDirective, Target::Case);
                assert(Err::<CaseView, GenerateError>(error) == case_with(variant@, Err(error)));
                Err(error)
            },
        }
    }
}

impl EnumReceiver {
    /// Reads a declaration as a sum type, case by case in declaration
    /// order, and stops at the first case that fails.
    ///
    /// A product type is refused with `UnsupportedShape`, a union with
    /// `UnsupportedKind`. For a sum type the result is stated for whatever
    /// the readings of its directives gave.
    pub fn from_derive_input(input: &TypeDeclaration) -> (receiver: Result<
        EnumReceiver,
        GenerateError,
    >)
        ensures
            exists|readings: Seq<Reading>|
                enum_readings(input@, readings) && result_view(receiver)
                    == #[trigger] enum_receiver_with(input@, readings),
    {
        match &input.kind {
            DeclarationKind::Sum(declared) => {
                let ghost all = views(declared@);
                let ghost mut read: Seq<Reading> = Seq::empty();
                let mut cases: Vec<Case> = Vec::new();
                let mut i: usize = 0;
                while i < declared.len()
                    invariant
                        i <= declared.len(),
                        all == views(declared@),
                        input@.kind == DeclarationKindView::Sum(all),
                        cases.len() == i,
                        read.len() == i,
                        forall|j: int| 0 <= j < i ==> #[trigger] case_reading(all[j], read[j]),
                        forall|j: int|
                            0 <= j < i ==> (#[trigger] case_with(all[j], read[j])) == Ok::<
                                CaseView,
                                GenerateError,
                            >(cases[j]@),
                    decreases declared.len() - i,
                {
                    let outcome = Case::from_variant(&declared[i]);
                    let ghost reading = choose|reading: Reading|
                        case_reading(all[i as int], reading) && result_view(outcome)
                            == #[trigger] case_with(all[i as int], reading);
                    match outcome {
                        Ok(case) => {
                            cases.push(case);
                            proof {
                                read = read.push(reading);
                            }
                        },
                        Err(error) => {
                            proof {
                                let readings = readings_stopped(all, read, reading);
                                assert forall|j: int| 0 <= j < all.len() implies #[trigger] case_reading(
                                    all[j],
                                    readings[j],
                                ) by {
                                    if j < i {
                                        assert(case_reading(all[j], read[j]));
                                    }
                                }
                                assert forall|j: int| 0 <= j < i implies (#[trigger] case_with(
                                    all[j],
                                    readings[j],
                                )) is Ok by {
                                    assert(case_with(all[j], read[j]) is Ok);
                                }
                                assert(first_failure_at(all, readings, i as int));
                                let k = choose|index: int| first_failure_at(all, readings, index);
                                assert(k == i) by {
                                    if k < i {
                                        assert(case_with(all[k], readings[k]) is Ok);
                                    } else if k > i {
                                        assert(case_with(all[i as int], readings[i as int]) is Ok);
                                    }
                                }
                                assert(Err::<EnumReceiverView, GenerateError>(error.of_case(i))
                                    == enum_receiver_with(input@, readings));
                            }
                            return Err(error.in_case(i));
                        },
                    }
                    i += 1;
                }
                let receiver = EnumReceiver {
                    name: input.name.clone(),
                    generics: input.generics.duplicate(),
                    cases,
                };
                proof {
                    assert forall|index: int| !first_failure_at(all, read, index) by {
                        if 0 <= index < all.len() {
                            assert(case_with(all[index], read[index]) is Ok);
                        }
                    }
                    assert(views(receiver.cases@) =~= Seq::new(
                        all.len(),
                        |j: int| case_with(all[j], read[j])->Ok_0,
                    )) by {
                        assert forall|j: int| 0 <= j < all.len() implies views(receiver.cases@)[j]
                            == case_with(all[j], read[j])->Ok_0 by {
                            assert(case_with(all[j], read[j]) is Ok);
                        }
                    }
                    assert(Ok::<EnumReceiverView, GenerateError>(receiver@) == enum_receiver_with(
                        input@,
                        read,
                    ));
                }
                Ok(receiver)
            },
            DeclarationKind::Product(_) => {
                let error = GenerateError::new(ErrorKind::UnsupportedShape, Target::Declaration);
                assert(Err::<EnumReceiverView, GenerateError>(error) == enum_receiver_with(
                    input@,
                    Seq::empty(),
                ));
                Err(error)
            },
            DeclarationKind::Union => {
                let error = GenerateError::new(ErrorKind::UnsupportedKind, Target::Declaration);
                assert(Err::<EnumReceiverView, GenerateError>(error) == enum_receiver_with(
                    input@,
                    Seq::empty(),
                ));
                Err(error)
            },
        }
    }
}

/// Builds the arm for a case.
pub fn case_arm(case: &Case) -> (arm: Arm)
    ensures
        arm@ == arm_of(case@),
{
    Arm { case: case.name.clone(), bindings: bind_fields(&case.shape), call: case.format.duplicate() }
}

/// Assembles the implementation for a sum type whose directives are read.
pub fn enum_implementation(receiver: &EnumReceiver) -> (implementation: Implementation)
    ensures
        implementation@ == enum_implementation_of(receiver@),
{
    let mut arms: Vec<Arm> = Vec::new();
    let mut i: usize = 0;
    while i < receiver.cases.len()
        invariant
            i <= receiver.cases.len(),
            arms.len() == i,
            forall|j: int| 0 <= j < i ==> arms[j]@ == arm_of(receiver.cases[j]@),
        decreases receiver.cases.len() - i,
    {
        arms.push(case_arm(&receiver.cases[i]));
        i += 1;
    }
    assert(views(arms@) =~= views(receiver.cases@).map_values(|case: CaseView| arm_of(case)));
    Implementation {
        ty: receiver.name.clone(),
        header: implementation_header(&receiver.generics),
        body: Body::Match(arms),
    }
}

/// Generates the implementation for a sum type.
///
/// Every case must carry a valid directive. The result holds one arm for
/// each case, in declaration order; it is stated for whatever the readings
/// of the directives gave.
pub fn parse_enum(input: &TypeDeclaration) -> (implementation: Result<
    Implementation,
    GenerateError,
>)
    ensures
        exists|readings: Seq<Reading>|
            enum_readings(input@, readings) && result_view(implementation)
                == #[trigger] generated_enum(input@, readings),
{
    let receiver = EnumReceiver::from_derive_input(input);
    let ghost readings = choose|readings: Seq<Reading>|
        enum_readings(input@, readings) && result_view(receiver) == #[trigger] enum_receiver_with(
            input@,
            readings,
        );
    match receiver {
        Ok(receiver) => {
            let implementation = enum_implementation(&receiver);
            assert(Ok::<ImplementationView, GenerateError>(implementation@) == generated_enum(
                input@,
                readings,
            ));
            Ok(implementation)
        },
        Err(error) => {
            assert(Err::<ImplementationView, GenerateError>(error) == generated_enum(
                input@,
                readings,
            ));
            Err(error)
        },
    }
}

} // verus!
