//! The generated implementation and its source text.

use vstd::prelude::*;
use vstd::string::*;
use crate::binding::{Bindings, BindingsView};
use crate::directive::{FormatSpec, FormatSpecView};
use crate::header::{GeneratedHeader, GeneratedHeaderView};
use crate::model::views;
use crate::text::{append_joined, joined};

verus! {

/// One arm of the case analysis: the case it matches, the identifiers its
/// pattern binds, and the render call of its body.
#[derive(Debug)]
pub struct Arm {
    pub case: String,
    pub bindings: Bindings,
    pub call: FormatSpec,
}

/// The model of an [`Arm`].
pub struct ArmView {
    pub case: Seq<char>,
    pub bindings: BindingsView,
    pub call: FormatSpecView,
}

impl View for Arm {
    type V = ArmView;

    open spec fn view(&self) -> ArmView {
        ArmView { case: self.case@, bindings: self.bindings@, call: self.call@ }
    }
}

/// The body of the generated `fmt`.
#[derive(Debug)]
pub enum Body {
    /// One case analysis over the value, with these arms in order.
    Match(Vec<Arm>),
    /// One binding step that takes the value apart, left out where nothing
    /// is bound, and one render call.
    Direct { bindings: Bindings, call: FormatSpec },
}

/// The model of a [`Body`].
pub enum BodyView {
    Match(Seq<ArmView>),
    Direct { bindings: BindingsView, call: FormatSpecView },
}

impl View for Body {
    type V = BodyView;

    open spec fn view(&self) -> BodyView {
        match self {
            Body::Match(arms) => BodyView::Match(views(arms@)),
            Body::Direct { bindings, call } => BodyView::Direct { bindings: bindings@, call: call@ },
        }
    }
}

/// One generated implementation of `std::fmt::Display`.
#[derive(Debug)]
pub struct Implementation {
    /// The name of the type that the implementation is for.
    pub ty: String,
    /// The generic parameters of the implementation.
    pub header: GeneratedHeader,
    pub body: Body,
}

/// The model of an [`Implementation`].
pub struct ImplementationView {
    pub ty: Seq<char>,
    pub header: GeneratedHeaderView,
    pub body: BodyView,
}

impl View for Implementation {
    type V = ImplementationView;

    open spec fn view(&self) -> ImplementationView {
        ImplementationView { ty: self.ty@, header: self.header@, body: self.body@ }
    }
}

/// The render calls that stand in a body, in order: one for each arm of a
/// case analysis, or the single call of a direct body.
pub open spec fn render_calls(body: BodyView) -> Seq<FormatSpecView> {
    match body {
        BodyView::Match(arms) => arms.map_values(|arm: ArmView| arm.call),
        BodyView::Direct { bindings, call } => seq![call],
    }
}

/// The text of a render call: the template, a comma, and the arguments
/// separated by commas.
pub open spec fn call_text(call: FormatSpecView) -> Seq<char> {
    "write!(f, "@ + call.template + ", "@ + joined(call.args, ", "@) + ")"@
}

/// The text of a pattern: a path, and behind it the bound identifiers in
/// the brackets of their form.
pub open spec fn pattern_text(path: Seq<char>, bindings: BindingsView) -> Seq<char> {
    match bindings {
        BindingsView::Unit => path,
        BindingsView::Tuple(names) => path + "("@ + joined(names, ", "@) + ")"@,
        BindingsView::Record(names) => path + " { "@ + joined(names, ", "@) + " }"@,
    }
}

/// The text of an arm: the pattern of the case, an arrow, and the render
/// call.
pub open spec fn arm_text(ty: Seq<char>, arm: ArmView) -> Seq<char> {
    pattern_text(ty + "::"@ + arm.case, arm.bindings) + " => "@ + call_text(arm.call)
}

/// The text of the binding step of a direct body; empty where nothing is
/// bound.
pub open spec fn binding_text(ty: Seq<char>, bindings: BindingsView) -> Seq<char> {
    match bindings {
        BindingsView::Unit => Seq::empty(),
        _ => "let "@ + pattern_text(ty, bindings) + " = self;\n        "@,
    }
}

/// The text of a body.
pub open spec fn body_text(ty: Seq<char>, body: BodyView) -> Seq<char> {
    match body {
        BodyView::Match(arms) => "match self {\n            "@ + joined(
            arms.map_values(|arm: ArmView| arm_text(ty, arm)),
            ",\n            "@,
        ) + "\n        }"@,
        BodyView::Direct { bindings, call } => binding_text(ty, bindings) + call_text(call),
    }
}

/// The text between the angle brackets of a header: the borrow-scope
/// parameters, a comma where there is at least one of them, and the type
/// parameters.
pub open spec fn params_text(header: GeneratedHeaderView) -> Seq<char> {
    joined(header.lifetimes, ", "@) + (if header.lifetimes.len() > 0 {
        ", "@
    } else {
        Seq::empty()
    }) + joined(header.type_params, ", "@)
}

/// The text of the constraint clause, with a space before it; empty where
/// there is none.
pub open spec fn where_text(header: GeneratedHeaderView) -> Seq<char> {
    match header.where_clause {
        Some(clause) => " "@ + clause,
        None => Seq::empty(),
    }
}

/// The source text of an implementation.
pub open spec fn source_text(implementation: ImplementationView) -> Seq<char> {
    "impl<"@ + params_text(implementation.header) + "> std::fmt::Display for "@
        + implementation.ty + "<"@ + params_text(implementation.header) + ">"@ + where_text(
        implementation.header,
    ) + " {\n    fn fmt(&self, f: &mut std::fmt::Formatter<'_>) -> std::fmt::Result {\n        "@
        + body_text(implementation.ty, implementation.body) + "\n    }\n}\n"@
}

/// Writes a render call.
pub fn call_source(call: &FormatSpec) -> (text: String)
    ensures
        text@ == call_text(call@),
{
    let mut text = String::from_str("write!(f, ");
    text.append(call.template.as_str());
    text.append(", ");
    append_joined(&mut text, &call.args, ", ");
    text.append(")");
    text
}

/// Writes a pattern.
pub fn pattern_source(path: &str, bindings: &Bindings) -> (text: String)
    ensures
        text@ == pattern_text(path@, bindings@),
{
    let mut text = String::from_str(path);
    match bindings {
        Bindings::Unit => {},
        Bindings::Tuple(names) => {
            text.append("(");
            append_joined(&mut text, names, ", ");
            text.append(")");
        },
        Bindings::Record(names) => {
            text.append(" { ");
            append_joined(&mut text, names, ", ");
            text.append(" }");
        },
    }
    text
}

/// Writes an arm of the case analysis over the type named `ty`.
pub fn arm_source(ty: &str, arm: &Arm) -> (text: String)
    ensures
        text@ == arm_text(ty@, arm@),
{
    let mut path = String::from_str(ty);
    path.append("::");
    path.append(arm.case.as_str());
    let mut text = pattern_source(path.as_str(), &arm.bindings);
    text.append(" => ");
    let call = call_source(&arm.call);
    text.append(call.as_str());
    text
}

/// Writes a body for the type named `ty`.
pub fn body_source(ty: &str, body: &Body) -> (text: String)
    ensures
        text@ == body_text(ty@, body@),
{
    match body {
        Body::Match(arms) => {
            let mut arm_texts: Vec<String> = Vec::new();
            let mut i: usize = 0;
            while i < arms.len()
                invariant
                    i <= arms.len(),
                    arm_texts.len() == i,
                    forall|j: int| 0 <= j < i ==> arm_texts[j]@ == arm_text(ty@, arms[j]@),
                decreases arms.len() - i,
            {
                arm_texts.push(arm_source(ty, &arms[i]));
                i += 1;
            }
            assert(views(arm_texts@) =~= views(arms@).map_values(
                |arm: ArmView| arm_text(ty@, arm),
            ));
            let mut text = String::from_str("match self {\n            ");
            append_joined(&mut text, &arm_texts, ",\n            ");
            text.append("\n        }");
            text
        },
        Body::Direct { bindings, call } => {
            let mut text = String::new();
            match bindings {
                Bindings::Unit => {},
                _ => {
                    text.append("let ");
                    let pattern = pattern_source(ty, bindings);
                    text.append(pattern.as_str());
                    text.append(" = self;\n        ");
                },
            }
            let call_text = call_source(call);
            text.append(call_text.as_str());
            assert(text@ =~= body_text(ty@, body@));
            text
        },
    }
}

/// Writes what stands between the angle brackets of a header.
pub fn params_source(header: &GeneratedHeader) -> (text: String)
    ensures
        text@ == params_text(header@),
{
    let mut text = String::new();
    append_joined(&mut text, &header.lifetimes, ", ");
    if header.lifetimes.len() > 0 {
        text.append(", ");
    }
    append_joined(&mut text, &header.type_params, ", ");
    assert(text@ =~= params_text(header@));
    text
}

impl Implementation {
    /// The source text of the implementation.
    pub fn to_source(&self) -> (text: String)
        ensures
            text@ == source_text(self@),
    {
        let params = params_source(&self.header);
        let body = body_source(self.ty.as_str(), &self.body);
        let mut text = String::from_str("impl<");
        text.append(params.as_str());
        text.append("> std::fmt::Display for ");
        text.append(self.ty.as_str());
        text.append("<");
        text.append(params.as_str());
        text.append(">");
        match &self.header.where_clause {
            Some(clause) => {
                text.append(" ");
                text.append(clause.as_str());
            },
            None => {},
        }
        assert(text@ =~= "impl<"@ + params_text(self@.header) + "> std::fmt::Display for "@
            + self@.ty + "<"@ + params_text(self@.header) + ">"@ + where_text(
            self@.header,
        ));
        text.append(
            " {\n    fn fmt(&self, f: &mut std::fmt::Formatter<'_>) -> std::fmt::Result {\n        ",
        );
        text.append(body.as_str());
        text.append("\n    }\n}\n");
        text
    }
}

} // verus!
