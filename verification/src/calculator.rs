//! A tool that evaluates arithmetic expressions.

use vstd::prelude::*;
use vstd::string::StringExecFns;
use crate::schema::{lookup, ArgValueView, ParamKind, ParameterSchema, PropertyView, ToolArgs};
use crate::text::chars_of;
use crate::tool::{Tool, ToolDefinition, ToolDefinitionView};

verus! {

/// `c` is a space, a tab, a carriage return or a line feed.
pub open spec fn is_space(c: char) -> bool {
    c == ' ' || c == '\t' || c == '\r' || c == '\n'
}

/// `text` is not empty and holds nothing but white space.
pub open spec fn is_blank(text: Seq<char>) -> bool {
    text.len() > 0 && forall|i: int| 0 <= i < text.len() ==> is_space(#[trigger] text[i])
}

/// Whether `text` is not empty and holds nothing but white space.
pub fn is_blank_text(text: &str) -> (blank: bool)
    ensures
        blank == is_blank(text@),
{
    let chars = chars_of(text);
    if chars.len() == 0 {
        return false;
    }
    let mut i: usize = 0;
    while i < chars.len()
        invariant
            i <= chars.len(),
            chars@ == text@,
            forall|j: int| 0 <= j < i ==> is_space(#[trigger] text@[j]),
        decreases chars.len() - i,
    {
        let c = chars[i];
        if !(c == ' ' || c == '\t' || c == '\r' || c == '\n') {
            assert(!is_space(text@[i as int]));
            return false;
        }
        i += 1;
    }
    true
}

/// What the evaluator says of the empty expression.
pub open spec fn nothing_to_evaluate() -> Seq<char> {
    "Parse error: Missing argument at the end of expression."@
}

/// `outcome` is the refusal of the empty expression.
pub open spec fn refuses_empty(outcome: Result<String, String>) -> bool {
    outcome matches Err(message) && message@ == nothing_to_evaluate()
}

/// `c` may stand in an expression made of decimal numbers, `+ - * / %` and
/// parentheses.
pub open spec fn is_plain_char(c: char) -> bool {
    ('0' <= c && c <= '9') || c == '.' || c == '+' || c == '-' || c == '*' || c == '/' || c == '%'
        || c == '(' || c == ')' || is_space(c)
}

/// `text` holds nothing but decimal numbers, `+ - * / %`, parentheses and
/// white space: no name of a constant or a function, no power, no exponent.
pub open spec fn is_plain(text: Seq<char>) -> bool {
    forall|i: int| 0 <= i < text.len() ==> is_plain_char(#[trigger] text[i])
}

/// What `meval::eval_str` makes of an expression: the value written out as
/// text, or the message of the error.
pub uninterp spec fn evaluated(expression: Seq<char>) -> Result<Seq<char>, Seq<char>>;

/// `outcome` fails exactly where `named` does, and with the same message.
pub open spec fn same_failure(
    outcome: Result<String, String>,
    named: Result<Seq<char>, Seq<char>>,
) -> bool {
    &&& outcome is Err <==> named is Err
    &&& outcome matches Err(message) ==> named == Err::<Seq<char>, Seq<char>>(message@)
}

/// `outcome` is `named`: the same value or the same message.
pub open spec fn same_outcome(
    outcome: Result<String, String>,
    named: Result<Seq<char>, Seq<char>>,
) -> bool {
    match outcome {
        Ok(value) => named == Ok::<Seq<char>, Seq<char>>(value@),
        Err(message) => named == Err::<Seq<char>, Seq<char>>(message@),
    }
}

/// The text that is evaluated for `expression`: the empty one in place of
/// white space alone, and else the expression itself.
pub open spec fn evaluated_text(expression: Seq<char>) -> Seq<char> {
    if is_blank(expression) {
        Seq::empty()
    } else {
        expression
    }
}

/// `outcome` is what evaluating `expression` gives: an error exactly where
/// the evaluator refuses the text that is evaluated for it, with the
/// evaluator's message; and of a plain expression the evaluator's value.
pub open spec fn evaluates(outcome: Result<String, String>, expression: Seq<char>) -> bool {
    &&& same_failure(outcome, evaluated(evaluated_text(expression)))
    &&& is_plain(expression) ==> same_outcome(outcome, evaluated(evaluated_text(expression)))
}

/// `meval::eval_str`, with the number written out as text and the error as
/// its message. A text of white space alone is left out: on it `eval_str`
/// panics.
///
/// Whether an expression fails, and with which message, depends on its text
/// alone: that is `evaluated`. So does the value of a plain expression.
/// Where a power or a built-in function enters, the value rests on floating
/// point routines whose last digits are not fixed, and only the success is
/// claimed. The empty expression is refused as lacking an argument.
#[verifier::external_body]
fn evaluate(expression: &str) -> (out: Result<String, String>)
    requires
        !is_blank(expression@),
    ensures
        same_failure(out, evaluated(expression@)),
        is_plain(expression@) ==> same_outcome(out, evaluated(expression@)),
        expression@.len() == 0 ==> refuses_empty(out),
{
    match meval::eval_str(expression) {
        Ok(value) => Ok(value.to_string()),
        Err(error) => Err(error.to_string()),
    }
}

/// The tool's name.
pub open spec fn calculate_name() -> Seq<char> {
    "calculate_tool"@
}

/// The one property the tool declares: the expression, required, as text.
pub open spec fn expression_property() -> PropertyView {
    PropertyView {
        name: "expression"@,
        kind: ParamKind::Text,
        description: "A mathematical expression to evaluate (e.g., '2 + 2', '3.14 * 5')"@,
        required: true,
    }
}

/// What the tool publishes.
pub open spec fn calculate_definition() -> ToolDefinitionView {
    ToolDefinitionView {
        name: calculate_name(),
        description: "Evaluates a mathematical expression and returns the result"@,
        parameters: seq![expression_property()],
    }
}

/// The cause reported where a call gives no expression.
pub open spec fn missing_expression() -> Seq<char> {
    "the argument `expression` is missing"@
}

/// Evaluates a mathematical expression and returns the result as text.
#[derive(Clone, Copy, Debug, Default, PartialEq, Eq)]
pub struct CalculateTool;

impl CalculateTool {
    /// Evaluates `expression`: the value as text, or why there is none. A
    /// text of white space alone is evaluated as the empty expression, which
    /// has no value.
    ///
    /// The result is an error exactly where the evaluator refuses the text,
    /// and then its message; of a plain expression it is the value the
    /// evaluator gives.
    pub fn evaluate(&self, expression: &str) -> (out: Result<String, String>)
        ensures
            evaluates(out, expression@),
            expression@.len() == 0 || is_blank(expression@) ==> refuses_empty(out),
    {
        if is_blank_text(expression) {
            let nothing = String::new();
            evaluate(nothing.as_str())
        } else {
            evaluate(expression)
        }
    }
}

impl Tool for CalculateTool {
    fn definition(&self) -> (out: ToolDefinition)
        ensures
            out@ == calculate_definition(),
    {
        let parameters = ParameterSchema::empty().with_property(
            "expression",
            ParamKind::Text,
            "A mathematical expression to evaluate (e.g., '2 + 2', '3.14 * 5')",
            true,
        );
        assert(parameters@ =~= seq![expression_property()]);
        ToolDefinition {
            name: String::from_str("calculate_tool"),
            description: String::from_str(
                "Evaluates a mathematical expression and returns the result",
            ),
            parameters,
        }
    }

    fn call(&self, args: &ToolArgs) -> (out: Result<String, String>)
        ensures
            !(lookup(args@, "expression"@) matches Some(ArgValueView::Text(_))) ==> (out matches Err(
                cause,
            ) && cause@ == missing_expression()),
            lookup(args@, "expression"@) matches Some(ArgValueView::Text(expression)) ==> evaluates(
                out,
                expression,
            ),
            lookup(args@, "expression"@) matches Some(ArgValueView::Text(expression)) && (
            expression.len() == 0 || is_blank(expression)) ==> refuses_empty(out),
    {
        match args.text("expression") {
            Some(expression) => self.evaluate(expression),
            None => Err(String::from_str("the argument `expression` is missing")),
        }
    }
}

} // verus!
