use vstd::prelude::*;
use vstd::string::*;

verus! {

/// Settings handed to the engine; it reads only their name.
pub struct Config {
    pub name: String,
}

/// What a caller supplies to the engine for one processing step.
pub struct Context {
    pub config: Config,
}

/// The debug rendering of a piece of text (quoted, with special characters
/// escaped), which depends on the text alone.
pub uninterp spec fn debug_of(s: Seq<char>) -> Seq<char>;

/// Relies on std's `Debug` for `str` (through `format!("{:?}")`): the text in
/// its quoted, escaped debug form.
#[verifier::external_body]
fn debug_text(s: &str) -> (r: String)
    ensures
        r@ == debug_of(s@),
{
    format!("{:?}", s)
}

/// The line announcing a processing step, given the already rendered name.
pub open spec fn processing_line(rendered_name: Seq<char>) -> Seq<char> {
    "Processing with context: "@ + rendered_name
}

/// The line announcing that the engine runs.
pub open spec fn running_line() -> Seq<char> {
    "Engine running"@
}

/// Builds the processing announcement from a name already in its display form.
pub fn processing_line_for(rendered_name: &str) -> (r: String)
    ensures
        r@ == processing_line(rendered_name@),
{
    String::from_str("Processing with context: ").concat(rendered_name)
}

/// The line that one processing step with `ctx` reports: the context's name
/// in its debug form, after a fixed label.
pub fn process_message(ctx: &Context) -> (r: String)
    ensures
        r@ == processing_line(debug_of(ctx.config.name@)),
{
    let rendered = debug_text(ctx.config.name.as_str());
    processing_line_for(rendered.as_str())
}

/// The line that starting the engine reports. It takes nothing and keeps no
/// state, so every call gives the same line.
pub fn run_message() -> (r: String)
    ensures
        r@ == running_line(),
{
    String::from_str("Engine running")
}

} // verus!
