//! What holds of generation for every declaration, whatever reading its
//! directives gives.

use vstd::prelude::*;
use crate::binding::{bindings_of, positional_name, positional_names};
use crate::declaration::{
    AnnotationView,
    CaseDeclarationView,
    GenericsView,
    TypeDeclarationView,
};
use crate::directive::{can_read, first_directive, Reading};
use crate::error::{ErrorKind, GenerateError, Target};
use crate::generate::{can_read_all, generated, generated_source, Readings};
use crate::header::header_of;
use crate::impl_enum::{arm_of, case_with, cases_with, first_failure_at};
use crate::output::{params_text, render_calls, BodyView, ImplementationView};
use crate::text::{decimal, decimal_is_injective, joined};

verus! {

/// For a product type that carries a directive which is read as valid,
/// generation succeeds, and the body holds exactly one render call: the
/// one that the directive asks for, behind the step that binds the fields.
pub proof fn product_renders_once(input: TypeDeclarationView, readings: Readings)
    requires
        input.kind is Product,
        first_directive(input.annotations) is Some,
        readings.whole is Ok,
    ensures
        generated(input, readings) is Ok,
        generated_source(input, readings) is Ok,
        render_calls(generated(input, readings)->Ok_0.body).len() == 1,
        generated(input, readings)->Ok_0.body == (BodyView::Direct {
            bindings: bindings_of(input.kind->Product_0),
            call: readings.whole->Ok_0,
        }),
{
}

/// For a sum type in which every case carries a directive which is read as
/// valid, generation succeeds, and the body is one case analysis that
/// holds one arm for each case, in declaration order.
pub proof fn sum_has_one_arm_per_case(input: TypeDeclarationView, readings: Readings)
    requires
        input.kind is Sum,
        readings.cases.len() == input.kind->Sum_0.len(),
        forall|i: int|
            0 <= i < input.kind->Sum_0.len() ==> first_directive(
                (#[trigger] input.kind->Sum_0[i]).annotations,
            ) is Some,
        forall|i: int| 0 <= i < input.kind->Sum_0.len() ==> (#[trigger] readings.cases[i]) is Ok,
    ensures
        generated(input, readings) is Ok,
        generated_source(input, readings) is Ok,
        generated(input, readings)->Ok_0.body is Match,
        generated(input, readings)->Ok_0.body->Match_0.len() == input.kind->Sum_0.len(),
        forall|i: int|
            0 <= i < input.kind->Sum_0.len() ==> {
                let case = #[trigger] input.kind->Sum_0[i];
                let arm = generated(input, readings)->Ok_0.body->Match_0[i];
                &&& arm == arm_of(case_with(case, readings.cases[i])->Ok_0)
                &&& arm.case == case.name
                &&& arm.bindings == bindings_of(case.shape)
                &&& arm.call == readings.cases[i]->Ok_0
            },
{
    let cases = input.kind->Sum_0;
    assert forall|i: int| 0 <= i < cases.len() implies (#[trigger] case_with(
        cases[i],
        readings.cases[i],
    )) is Ok by {
        assert(first_directive(cases[i].annotations) is Some);
        assert(readings.cases[i] is Ok);
    }
    assert forall|index: int| !first_failure_at(cases, readings.cases, index) by {
        if 0 <= index < cases.len() {
            assert(case_with(cases[index], readings.cases[index]) is Ok);
        }
    }
}

/// For a sum type with a case that carries no directive, generation fails
/// and emits no source.
pub proof fn sum_with_bare_case_fails(input: TypeDeclarationView, readings: Readings, bare: int)
    requires
        input.kind is Sum,
        0 <= bare < input.kind->Sum_0.len(),
        first_directive(input.kind->Sum_0[bare].annotations) is None,
    ensures
        generated(input, readings) is Err,
        generated_source(input, readings) is Err,
{
    first_failure_exists(input.kind->Sum_0, readings.cases, bare);
}

/// For a sum type in which the case at `bare` carries no directive and
/// every case before it is read as valid, generation fails with
/// `MissingDirective`, attributed to that case.
pub proof fn missing_directive_is_attributed_to_its_case(
    input: TypeDeclarationView,
    readings: Readings,
    bare: int,
)
    requires
        input.kind is Sum,
        0 <= bare < input.kind->Sum_0.len(),
        bare <= usize::MAX,
        first_directive(input.kind->Sum_0[bare].annotations) is None,
        forall|j: int|
            0 <= j < bare ==> (#[trigger] case_with(input.kind->Sum_0[j], readings.cases[j])) is Ok,
    ensures
        generated(input, readings) == Err::<ImplementationView, GenerateError>(
            GenerateError {
                kind: ErrorKind::MissingDirective,
                case: Some(bare as usize),
                target: Target::Case,
            },
        ),
        generated_source(input, readings) is Err,
{
    let cases = input.kind->Sum_0;
    assert(first_failure_at(cases, readings.cases, bare));
    let k = choose|index: int| first_failure_at(cases, readings.cases, index);
    assert(k == bare) by {
        if k < bare {
            assert(case_with(cases[k], readings.cases[k]) is Ok);
        } else if k > bare {
            assert(case_with(cases[bare], readings.cases[bare]) is Ok);
        }
    }
}

/// Among cases of which one fails, one is the first to fail.
proof fn first_failure_exists(
    cases: Seq<CaseDeclarationView>,
    readings: Seq<Reading>,
    failing: int,
)
    requires
        0 <= failing < cases.len(),
        case_with(cases[failing], readings[failing]) is Err,
    ensures
        exists|index: int| first_failure_at(cases, readings, index),
        cases_with(cases, readings) is Err,
    decreases failing,
{
    if exists|j: int| 0 <= j < failing && (#[trigger] case_with(cases[j], readings[j])) is Err {
        let j = choose|j: int|
            0 <= j < failing && (#[trigger] case_with(cases[j], readings[j])) is Err;
        first_failure_exists(cases, readings, j);
    } else {
        assert(first_failure_at(cases, readings, failing));
    }
}

/// An error that comes of reading a directive points at the directive or
/// at one of its expressions, and holds no position of a case.
pub proof fn reading_errors_point_into_the_directive(annotation: AnnotationView, reading: Reading)
    requires
        can_read(annotation, reading),
        reading is Err,
    ensures
        reading->Err_0.case is None,
        reading->Err_0.target is Directive || reading->Err_0.target is Expression,
        reading->Err_0.kind is MalformedDirective || reading->Err_0.kind is MalformedArguments
            || reading->Err_0.kind is MissingOrInvalidTemplate,
{
}

/// Every error of generation for a sum type holds the position of one of
/// its cases; no error for a product type or a union holds one.
pub proof fn errors_name_their_node(input: TypeDeclarationView, readings: Readings)
    requires
        can_read_all(input, readings),
        generated(input, readings) is Err,
        input.kind is Sum ==> input.kind->Sum_0.len() <= usize::MAX,
    ensures
        input.kind is Sum ==> generated(input, readings)->Err_0.case is Some && generated(
            input,
            readings,
        )->Err_0.case->Some_0 < input.kind->Sum_0.len(),
        !(input.kind is Sum) ==> generated(input, readings)->Err_0.case is None,
{
    if input.kind is Product && first_directive(input.annotations) is Some && readings.whole is Err {
        reading_errors_point_into_the_directive(
            first_directive(input.annotations)->Some_0,
            readings.whole,
        );
    }
}

/// No two positional fields are bound to the same identifier.
pub proof fn positional_names_differ(count: nat, i: int, j: int)
    requires
        0 <= i < count,
        0 <= j < count,
        i != j,
    ensures
        positional_names(count)[i] != positional_names(count)[j],
{
    if positional_name(i as nat) == positional_name(j as nat) {
        assert(positional_name(i as nat).skip(1) =~= decimal(i as nat));
        assert(positional_name(j as nat).skip(1) =~= decimal(j as nat));
        decimal_is_injective(i as nat, j as nat);
    }
}

/// For a union, generation fails with `UnsupportedKind`, whatever else the
/// declaration holds.
pub proof fn union_is_refused(input: TypeDeclarationView, readings: Readings)
    requires
        input.kind is Union,
    ensures
        generated(input, readings) == Err::<ImplementationView, GenerateError>(
            GenerateError {
                kind: ErrorKind::UnsupportedKind,
                case: None,
                target: Target::Declaration,
            },
        ),
        generated_source(input, readings) is Err,
{
}

/// What generation emits has the name of the declaration and the header of
/// its parameters.
pub proof fn generated_header_follows_declaration(input: TypeDeclarationView, readings: Readings)
    requires
        generated(input, readings) is Ok,
    ensures
        generated(input, readings)->Ok_0.ty == input.name,
        generated(input, readings)->Ok_0.header == header_of(input.generics),
{
}

/// No type parameter stands in a generated header with its default
/// binding: each stands there as its text alone.
pub proof fn header_has_no_defaults(generics: GenericsView, index: int)
    requires
        0 <= index < generics.type_params.len(),
    ensures
        header_of(generics).type_params.len() == generics.type_params.len(),
        header_of(generics).type_params[index] == generics.type_params[index].text,
{
}

/// The generated header does not depend on default bindings: two lists of
/// parameters that differ in nothing else have the same header.
pub proof fn header_ignores_defaults(one: GenericsView, other: GenericsView)
    requires
        one.lifetimes == other.lifetimes,
        one.where_clause == other.where_clause,
        one.type_params.len() == other.type_params.len(),
        forall|i: int|
            0 <= i < one.type_params.len() ==> one.type_params[i].text
                == other.type_params[i].text,
    ensures
        header_of(one) == header_of(other),
        params_text(header_of(one)) == params_text(header_of(other)),
{
    assert(header_of(one).type_params =~= header_of(other).type_params);
}

/// What generation emits does not depend on default bindings: for two
/// declarations that differ in nothing else, and the same readings, it
/// emits the same, or fails alike.
pub proof fn source_ignores_defaults(
    one: TypeDeclarationView,
    other: TypeDeclarationView,
    readings: Readings,
)
    requires
        one.name == other.name,
        one.annotations == other.annotations,
        one.kind == other.kind,
        one.generics.lifetimes == other.generics.lifetimes,
        one.generics.where_clause == other.generics.where_clause,
        one.generics.type_params.len() == other.generics.type_params.len(),
        forall|i: int|
            0 <= i < one.generics.type_params.len() ==> one.generics.type_params[i].text
                == other.generics.type_params[i].text,
    ensures
        generated(one, readings) == generated(other, readings),
        generated_source(one, readings) == generated_source(other, readings),
{
    header_ignores_defaults(one.generics, other.generics);
}

/// In a generated header the borrow-scope parameters come first, as
/// declared, and the type parameters after them. A comma stands between the
/// two exactly where there is a borrow-scope parameter.
pub proof fn lifetimes_precede_type_params(generics: GenericsView)
    ensures
        header_of(generics).lifetimes == generics.lifetimes,
        header_of(generics).where_clause == generics.where_clause,
        generics.lifetimes.len() == 0 ==> params_text(header_of(generics)) == joined(
            header_of(generics).type_params,
            ", "@,
        ),
        generics.lifetimes.len() > 0 ==> params_text(header_of(generics)) == joined(
            generics.lifetimes,
            ", "@,
        ) + ", "@ + joined(header_of(generics).type_params, ", "@),
{
    if generics.lifetimes.len() == 0 {
        assert(joined(generics.lifetimes, ", "@) =~= Seq::<char>::empty());
        assert(params_text(header_of(generics)) =~= joined(
            header_of(generics).type_params,
            ", "@,
        ));
    }
}

} // verus!
