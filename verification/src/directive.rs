//! Reading one `display` directive: a template and its arguments.

use vstd::prelude::*;
use vstd::string::*;
use quote::ToTokens;
use syn::parse::Parser;
use syn::punctuated::Punctuated;
use crate::declaration::{
    Annotation,
    AnnotationForm,
    AnnotationView,
    Delimiter,
};
use crate::error::{ErrorKind, GenerateError, Target};
use crate::model::{clone_text, clone_texts, result_view, text_of, views};

verus! {

/// One expression of a directive's list.
#[derive(Debug)]
pub struct Expression {
    /// The tokens of the expression, as `proc-macro2` prints them.
    pub text: String,
    /// Where the expression is a string literal: the literal as written,
    /// quotes included.
    pub literal: Option<String>,
}

/// The model of an [`Expression`].
pub struct ExpressionView {
    pub text: Seq<char>,
    pub literal: Option<Seq<char>>,
}

impl View for Expression {
    type V = ExpressionView;

    open spec fn view(&self) -> ExpressionView {
        ExpressionView { text: self.text@, literal: text_of(self.literal) }
    }
}

/// What a directive says: the template, a string literal as written, and
/// the argument expressions that follow it.
#[derive(Debug)]
pub struct FormatSpec {
    pub template: String,
    pub args: Vec<String>,
}

/// The model of a [`FormatSpec`].
pub struct FormatSpecView {
    pub template: Seq<char>,
    pub args: Seq<Seq<char>>,
}

impl View for FormatSpec {
    type V = FormatSpecView;

    open spec fn view(&self) -> FormatSpecView {
        FormatSpecView { template: self.template@, args: views(self.args@) }
    }
}

impl FormatSpec {
    /// A copy of the directive.
    pub fn duplicate(&self) -> (copy: FormatSpec)
        ensures
            copy@ == self@,
    {
        FormatSpec { template: self.template.clone(), args: clone_texts(&self.args) }
    }
}

/// The error type of `syn`'s parsers.
#[verifier::external_type_specification]
#[verifier::external_body]
pub struct ExSynError(syn::Error);

/// Parses `tokens` with `syn`: `Punctuated::<Expr, Comma>::parse_terminated`
/// run by `Parser::parse_str`, that is zero or more expressions separated
/// by commas, a trailing comma allowed, and nothing else. Each expression
/// comes back as the text of its tokens; for a string literal the literal's
/// own token is given too.
///
/// How the text is cut into tokens, and how tokens are printed, is up to
/// the lexer and printer that `proc-macro2` picks in the running process.
/// So the contract claims one thing only: the empty text is the empty list,
/// since the parser stops at once where nothing is left to read.
#[verifier::external_body]
fn parse_expressions(tokens: &str) -> (parsed: Result<Vec<Expression>, syn::Error>)
    ensures
        tokens@.len() == 0 ==> parsed is Ok && parsed->Ok_0@.len() == 0,
{
    let parser = Punctuated::<syn::Expr, syn::token::Comma>::parse_terminated;
    let list = parser.parse_str(tokens)?;
    Ok(list.iter().map(|expr| Expression {
        text: expr.to_token_stream().to_string(),
        literal: match expr {
            syn::Expr::Lit(syn::ExprLit { lit: syn::Lit::Str(s), .. }) => Some(s.token().to_string()),
            _ => None,
        },
    }).collect())
}

/// The directive that a parsed list of expressions stands for: the first
/// expression is the template and must be a string literal, the others are
/// the arguments.
pub open spec fn format_spec_of(parsed: Seq<ExpressionView>) -> Result<
    FormatSpecView,
    GenerateError,
> {
    if parsed.len() == 0 {
        Err(GenerateError::at(ErrorKind::MissingOrInvalidTemplate, Target::Directive))
    } else {
        match parsed[0].literal {
            Some(template) => Ok(
                FormatSpecView {
                    template,
                    args: parsed.skip(1).map_values(|e: ExpressionView| e.text),
                },
            ),
            None => Err(
                GenerateError::at(ErrorKind::MissingOrInvalidTemplate, Target::Expression(0)),
            ),
        }
    }
}

/// What reading an annotation as a directive gives: the directive, or the
/// error.
pub type Reading = Result<FormatSpecView, GenerateError>;

/// Whether an annotation is a list in round brackets.
pub open spec fn is_round_list(annotation: AnnotationView) -> bool {
    annotation.form is List && annotation.form->delimiter == Delimiter::Parenthesis
}

/// Whether `reading` can come of reading `annotation` as a directive.
///
/// - An annotation that is no list in round brackets is a malformed
///   directive.
/// - An empty list lacks the template.
/// - Any other list either is no list of expressions, or is read as the
///   directive that its expressions stand for.
pub open spec fn can_read(annotation: AnnotationView, reading: Reading) -> bool {
    if !is_round_list(annotation) {
        reading == Err::<FormatSpecView, GenerateError>(
            GenerateError::at(ErrorKind::MalformedDirective, Target::Directive),
        )
    } else if annotation.form->tokens.len() == 0 {
        reading == Err::<FormatSpecView, GenerateError>(
            GenerateError::at(ErrorKind::MissingOrInvalidTemplate, Target::Directive),
        )
    } else {
        ||| reading == Err::<FormatSpecView, GenerateError>(
            GenerateError::at(ErrorKind::MalformedArguments, Target::Directive),
        )
        ||| exists|parsed: Seq<ExpressionView>| reading == #[trigger] format_spec_of(parsed)
    }
}

/// One reading that [`can_read`] admits of the annotation, whatever it is:
/// the error of a malformed directive, of a missing template, or of
/// malformed arguments. It stands for a directive that was never read.
pub open spec fn refusal_of(annotation: AnnotationView) -> Reading {
    if !is_round_list(annotation) {
        Err(GenerateError::at(ErrorKind::MalformedDirective, Target::Directive))
    } else if annotation.form->tokens.len() == 0 {
        Err(GenerateError::at(ErrorKind::MissingOrInvalidTemplate, Target::Directive))
    } else {
        Err(GenerateError::at(ErrorKind::MalformedArguments, Target::Directive))
    }
}

/// Whether an annotation is a directive: its path is the single word
/// `display`.
pub open spec fn is_directive(annotation: AnnotationView) -> bool {
    annotation.path == "display"@
}

/// Whether the annotation at `index` is the first directive of the list.
pub open spec fn first_directive_at(annotations: Seq<AnnotationView>, index: int) -> bool {
    &&& 0 <= index < annotations.len()
    &&& is_directive(annotations[index])
    &&& forall|j: int| 0 <= j < index ==> !is_directive(#[trigger] annotations[j])
}

/// The directive of a node with these annotations: the first of them that
/// is a directive, if there is one.
pub open spec fn first_directive(annotations: Seq<AnnotationView>) -> Option<AnnotationView> {
    if exists|index: int| first_directive_at(annotations, index) {
        Some(annotations[choose|index: int| first_directive_at(annotations, index)])
    } else {
        None
    }
}

/// Finds the directive among the annotations of a node.
pub fn find_directive(annotations: &Vec<Annotation>) -> (found: Option<&Annotation>)
    ensures
        match found {
            Some(annotation) => first_directive(views(annotations@)) == Some(annotation@),
            None => first_directive(views(annotations@)) is None,
        },
{
    let word = String::from_str("display");
    let mut i: usize = 0;
    while i < annotations.len()
        invariant
            i <= annotations.len(),
            word@ == "display"@,
            forall|j: int| 0 <= j < i ==> !is_directive(#[trigger] views(annotations@)[j]),
        decreases annotations.len() - i,
    {
        if annotations[i].path == word {
            proof {
                let all = views(annotations@);
                assert(first_directive_at(all, i as int));
                let k = choose|index: int| first_directive_at(all, index);
                assert(k == i) by {
                    if k < i {
                        assert(!is_directive(all[k]));
                    } else if k > i {
                        assert(!is_directive(all[i as int]));
                    }
                }
            }
            return Some(&annotations[i]);
        }
        i += 1;
    }
    None
}

/// Makes a directive of a parsed list of expressions.
pub fn format_spec_from(parsed: &Vec<Expression>) -> (spec: Result<FormatSpec, GenerateError>)
    ensures
        result_view(spec) == format_spec_of(views(parsed@)),
{
    if parsed.len() == 0 {
        return Err(GenerateError::new(ErrorKind::MissingOrInvalidTemplate, Target::Directive));
    }
    match clone_text(&parsed[0].literal) {
        None => Err(GenerateError::new(ErrorKind::MissingOrInvalidTemplate, Target::Expression(0))),
        Some(template) => {
            let mut args: Vec<String> = Vec::new();
            let mut i: usize = 1;
            while i < parsed.len()
                invariant
                    1 <= i <= parsed.len(),
                    args.len() == i - 1,
                    forall|j: int| 0 <= j < i - 1 ==> args[j]@ == parsed[j + 1].text@,
                decreases parsed.len() - i,
            {
                args.push(parsed[i].text.clone());
                i += 1;
            }
            assert(views(args@) =~= views(parsed@).skip(1).map_values(|e: ExpressionView| e.text));
            Ok(FormatSpec { template, args })
        },
    }
}

/// Reads an annotation as a directive.
///
/// The annotation must be a list in round brackets, the list must parse as
/// expressions separated by commas, and the first of them must be a string
/// literal. Whether a list that is not empty parses, and as which
/// expressions, is decided by `syn`; the rest is decided here, as
/// [`format_spec_from`] says for every parsed list.
pub fn parse_display_attribute(attr: &Annotation) -> (spec: Result<FormatSpec, GenerateError>)
    ensures
        can_read(attr@, result_view(spec)),
{
    match &attr.form {
        AnnotationForm::List { delimiter: Delimiter::Parenthesis, tokens } => {
            match parse_expressions(tokens.as_str()) {
                Ok(parsed) => {
                    let spec = format_spec_from(&parsed);
                    assert(result_view(spec) == format_spec_of(views(parsed@)));
                    spec
                },
                Err(_) => Err(GenerateError::new(ErrorKind::MalformedArguments, Target::Directive)),
            }
        },
        _ => Err(GenerateError::new(ErrorKind::MalformedDirective, Target::Directive)),
    }
}

} // verus!
