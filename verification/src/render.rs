//! Rendering a template with the `upon` engine.
//!
//! The engine's substitution syntax is not described here: what it makes of
//! a template is named by [`rendered`], and this module states how a
//! context reaches the engine and how its answer comes back.

use crate::error::DSDMError;
use crate::manifest::Delims;
use crate::template::{distinct_names, entries_tree, ContextTree, TemplateContext};
use vstd::prelude::*;
use vstd::string::StrSliceExecFns;

verus! {

/// The engine's own value type, `upon::Value`.
#[verifier::external_type_specification]
#[verifier::external_body]
pub struct ExValue(upon::Value);

/// The tree that an engine value holds, where it is made of strings and
/// maps alone.
pub uninterp spec fn value_tree(value: upon::Value) -> ContextTree;

/// What the engine makes of the template `source` with expressions between
/// `open` and `close`, for the variables of `context`: the rendered text,
/// or the message of the engine's error.
pub uninterp spec fn rendered(
    source: Seq<char>,
    open: Seq<char>,
    close: Seq<char>,
    context: ContextTree,
) -> Result<Seq<char>, Seq<char>>;

/// Whether a character is white space: one of the characters that Unicode
/// gives the property `White_Space`, which are those that trimming a
/// string removes.
pub open spec fn is_white_space(c: char) -> bool {
    let code = c as u32;
    ||| 0x09 <= code <= 0x0D
    ||| code == 0x20
    ||| code == 0x85
    ||| code == 0xA0
    ||| code == 0x1680
    ||| 0x2000 <= code <= 0x200A
    ||| code == 0x2028
    ||| code == 0x2029
    ||| code == 0x202F
    ||| code == 0x205F
    ||| code == 0x3000
}

/// Tests whether a character is white space.
pub fn check_white_space(c: char) -> (found: bool)
    ensures
        found == is_white_space(c),
{
    let code = c as u32;
    (0x09 <= code && code <= 0x0D) || code == 0x20 || code == 0x85 || code == 0xA0 || code
        == 0x1680 || (0x2000 <= code && code <= 0x200A) || code == 0x2028 || code == 0x2029
        || code == 0x202F || code == 0x205F || code == 0x3000
}

/// The longest pair of delimiters, in characters of both together, that is
/// handed to the engine.
pub const MAX_DELIMITERS: usize = 0x10_0000;

/// The mapping that the first `n` named engine values stand for.
pub open spec fn values_tree(entries: Seq<(String, upon::Value)>, n: nat) -> Map<
    Seq<char>,
    ContextTree,
>
    decreases n,
{
    if n == 0 || n > entries.len() {
        Map::empty()
    } else {
        values_tree(entries, (n - 1) as nat).insert(entries[n - 1].0@, value_tree(entries[n - 1].1))
    }
}

/// No name occurs twice among the named engine values.
pub open spec fn distinct_value_names(entries: Seq<(String, upon::Value)>) -> bool {
    forall|i: int, j: int|
        0 <= i < j < entries.len() ==> (#[trigger] entries[i]).0@ != (#[trigger] entries[j]).0@
}

/// Makes the engine's string value, `upon::Value::String`, of a text.
#[verifier::external_body]
fn leaf_value(text: &str) -> (value: upon::Value)
    ensures
        value_tree(value) == ContextTree::Leaf(text@),
{
    upon::Value::String(text.to_owned())
}

/// Makes the engine's map value, `upon::Value::Map`, of named values. The
/// names are distinct, so the map holds each of them with its value.
#[verifier::external_body]
fn node_value(entries: Vec<(String, upon::Value)>) -> (value: upon::Value)
    requires
        distinct_value_names(entries@),
    ensures
        value_tree(value) == ContextTree::Node(values_tree(entries@, entries@.len())),
{
    upon::Value::Map(entries.into_iter().collect())
}

/// Compiles `source` in an `upon::Engine` whose expression syntax is the
/// pair `open`, `close`, under the name `tpl`, and renders it with
/// `context` as its variables. An error of the engine comes back as its
/// message.
///
/// Three kinds of delimiters are left out, on which the engine panics. It
/// refuses an empty delimiter. Its searcher cannot be built for delimiters
/// of some gigabytes. And its lexer, when it trims the raw text before a
/// tag written with `-`, cuts white space off the end of all the text read
/// so far: after a close delimiter that ends in white space the cut passes
/// the start of the raw text, and the text is then sliced backwards.
#[verifier::external_body]
fn render_value(source: &str, open: &str, close: &str, context: &upon::Value) -> (text: Result<
    String,
    String,
>)
    requires
        open@.len() > 0,
        close@.len() > 0,
        open@.len() + close@.len() <= MAX_DELIMITERS,
        !is_white_space(close@.last()),
    ensures
        match rendered(source@, open@, close@, value_tree(*context)) {
            Ok(expected) => text is Ok && text->Ok_0@ == expected,
            Err(message) => text is Err && text->Err_0@ == message,
        },
{
    let mut engine = upon::Engine::new();
    engine.set_syntax(upon::Syntax::builder().expr(open, close).build());
    if let Err(e) = engine.add_template("tpl", source) {
        return Err(e.to_string());
    }
    engine.template("tpl").render_from(context).to_string().map_err(|e| e.to_string())
}

/// The named engine values stand for the same mapping as the entries they
/// were made of.
proof fn lemma_values_tree(
    values: Seq<(String, upon::Value)>,
    entries: Seq<(String, TemplateContext)>,
    n: nat,
)
    requires
        n <= values.len(),
        n <= entries.len(),
        forall|i: int|
            0 <= i < n ==> (#[trigger] values[i]).0@ == entries[i].0@ && value_tree(values[i].1)
                == entries[i].1.tree(),
    ensures
        values_tree(values, n) == entries_tree(entries, n),
    decreases n,
{
    if n > 0 {
        lemma_values_tree(values, entries, (n - 1) as nat);
    }
}

/// Hands a context over to the engine as one of its values.
pub fn engine_value(context: &TemplateContext) -> (value: upon::Value)
    requires
        context.wf(),
    ensures
        value_tree(value) == context.tree(),
    decreases context,
{
    match context {
        TemplateContext::Value(text) => leaf_value(text.as_str()),
        TemplateContext::Nested(entries) => {
            let mut values: Vec<(String, upon::Value)> = Vec::new();
            let mut at: usize = 0;
            while at < entries.len()
                invariant
                    at <= entries.len(),
                    values@.len() == at,
                    context.wf(),
                    *context == TemplateContext::Nested(*entries),
                    forall|i: int|
                        0 <= i < at ==> (#[trigger] values@[i]).0@ == entries@[i].0@ && value_tree(
                            values@[i].1,
                        ) == entries@[i].1.tree(),
                decreases entries.len() - at,
            {
                let entry = &entries[at];
                let value = engine_value(&entry.1);
                values.push((entry.0.clone(), value));
                at = at + 1;
            }
            proof {
                lemma_values_tree(values@, entries@, entries@.len());
            }
            node_value(values)
        },
    }
}

/// What becomes of the engine's answer: its text is handed on, and the
/// message of its error is carried by a `TemplateError`.
pub fn render_result(answer: Result<String, String>) -> (text: Result<String, DSDMError>)
    ensures
        text == match answer {
            Ok(rendered_text) => Ok::<String, DSDMError>(rendered_text),
            Err(message) => Err(DSDMError::TemplateError(message)),
        },
{
    match answer {
        Ok(rendered_text) => Ok(rendered_text),
        Err(message) => Err(DSDMError::TemplateError(message)),
    }
}

/// What rendering gives: the rendered text, or a `TemplateError` that carries
/// the engine's message.
pub open spec fn render_outcome(
    source: Seq<char>,
    delims: Delims,
    context: ContextTree,
    text: Result<String, DSDMError>,
) -> bool {
    match rendered(source, delims.open@, delims.close@, context) {
        Ok(expected) => text is Ok && text->Ok_0@ == expected,
        Err(message) => text matches Err(DSDMError::TemplateError(detail)) && detail@ == message,
    }
}

/// Rendering repeats: the same template, delimiters and context give the
/// same outcome every time, the same text or the same error. This rests on
/// the engine's answer being a function of what it is handed.
pub proof fn law_rendering_repeats(
    source: Seq<char>,
    delims: Delims,
    context: ContextTree,
    first: Result<String, DSDMError>,
    second: Result<String, DSDMError>,
)
    requires
        render_outcome(source, delims, context, first),
        render_outcome(source, delims, context, second),
    ensures
        first is Ok == second is Ok,
        first is Ok ==> first->Ok_0@ == second->Ok_0@,
        first is Err ==> first->Err_0.message_text() == second->Err_0.message_text(),
{
}

/// Whether a pair of delimiters can be handed to the engine: neither is
/// empty, together they are no longer than [`MAX_DELIMITERS`], and the
/// closing one does not end in white space.
pub open spec fn usable(delims: Delims) -> bool {
    &&& delims.open@.len() > 0
    &&& delims.close@.len() > 0
    &&& delims.open@.len() + delims.close@.len() <= MAX_DELIMITERS
    &&& !is_white_space(delims.close@.last())
}

/// Tests whether a pair of delimiters can be handed to the engine.
pub fn check_usable(dlm: &Delims) -> (ok: bool)
    ensures
        ok == usable(*dlm),
{
    let open = dlm.open.as_str().unicode_len();
    let close = dlm.close.as_str().unicode_len();
    open > 0 && close > 0 && open <= MAX_DELIMITERS && close <= MAX_DELIMITERS - open
        && !check_white_space(dlm.close.as_str().get_char(close - 1))
}

/// Renders as [`render_template`] does where the delimiters are usable and
/// the context is well-formed, and gives `None` where they are not.
pub fn render_checked(input: &str, dlm: &Delims, ctx: &TemplateContext) -> (text: Option<
    Result<String, DSDMError>,
>)
    ensures
        text is Some == (usable(*dlm) && ctx.wf()),
        text matches Some(outcome) ==> render_outcome(input@, *dlm, ctx.tree(), outcome),
{
    if check_usable(dlm) && ctx.check_wf() {
        Some(render_template(input, dlm, ctx))
    } else {
        None
    }
}

/// Renders the template `input` with the variables of `ctx`, with
/// expressions written between the delimiters `dlm`.
pub fn render_template(input: &str, dlm: &Delims, ctx: &TemplateContext) -> (text: Result<
    String,
    DSDMError,
>)
    requires
        usable(*dlm),
        ctx.wf(),
    ensures
        render_outcome(input@, *dlm, ctx.tree(), text),
{
    let value = engine_value(ctx);
    render_result(render_value(input, dlm.open.as_str(), dlm.close.as_str(), &value))
}

} // verus!
