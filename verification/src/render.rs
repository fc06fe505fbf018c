//! The renderer: hands a binding set to a strict template engine.
//!
//! The template grammar is an outside capability; this module only guarantees
//! which binding set the engine sees, that strict undefined-variable checking
//! is on, and how the engine's outcome is classified. What the engine returns
//! for a given template and binding set is named, not restated: it is a pure
//! function of the two, and `hb_render_of` is that function's name.

use vstd::prelude::*;

use crate::bindings::BindingSet;
use crate::errors::{Error, ErrorView};

verus! {

/// How one call of the template engine can fail: a strict-mode miss on a
/// variable (with the variable's name when the engine reports one), or any
/// other refusal, carried as the engine's own text.
pub enum EngineFailure {
    MissingVariable(Option<Seq<char>>),
    Other(Seq<char>),
}

/// What the template engine returns for a template and a binding set. The
/// outcome is a function of the two alone, so it has a name rather than a
/// page-long statement.
pub uninterp spec fn hb_render_of(template: Seq<char>, bindings: Map<Seq<char>, Seq<char>>) -> Result<Seq<char>, EngineFailure>;

/// The engine's outcome as the library classifies it, in error terms of the
/// library's own.
pub open spec fn render_spec(template: Seq<char>, bindings: Map<Seq<char>, Seq<char>>) -> Result<
    Seq<char>,
    ErrorView,
> {
    match hb_render_of(template, bindings) {
        Ok(text) => Ok(text),
        Err(EngineFailure::MissingVariable(name)) => Err(ErrorView::UndefinedVariable(name)),
        Err(EngineFailure::Other(msg)) => Err(ErrorView::RenderSyntax(msg)),
    }
}

/// The view of a rendering result.
pub open spec fn rendered_view(r: Result<String, Error>) -> Result<Seq<char>, ErrorView> {
    match r {
        Ok(text) => Ok(text@),
        Err(e) => Err(e@),
    }
}

enum RawFailure {
    MissingVariable(Option<String>),
    Other(String),
}

spec fn raw_view(r: Result<String, RawFailure>) -> Result<Seq<char>, EngineFailure> {
    match r {
        Ok(text) => Ok(text@),
        Err(RawFailure::MissingVariable(Some(name))) => Err(
            EngineFailure::MissingVariable(Some(name@)),
        ),
        Err(RawFailure::MissingVariable(None)) => Err(EngineFailure::MissingVariable(None)),
        Err(RawFailure::Other(msg)) => Err(EngineFailure::Other(msg@)),
    }
}

/// Relies on `handlebars::Handlebars`: `new` + `set_strict_mode(true)` +
/// `render_template`, whose outcome depends on the template text and the
/// binding contents alone (the bindings reach the engine through a map whose
/// JSON form is key-sorted, and the engine's `preserve_json_order` feature is
/// off); and on `RenderErrorReason::MissingVariable` marking exactly the
/// strict-mode misses. Duplicate keys cannot reach the engine: std's
/// `HashMap` keeps the last value inserted, as `map_of_pairs` does.
#[verifier::external_body]
fn hb_render_strict(template: &str, bindings: &BindingSet) -> (r: Result<String, RawFailure>)
    ensures
        raw_view(r) == hb_render_of(template@, bindings@),
{
    let mut engine = handlebars::Handlebars::new();
    engine.set_strict_mode(true);
    let data: std::collections::HashMap<String, String> =
        bindings.pairs.iter().cloned().collect();
    match engine.render_template(template, &data) {
        Ok(text) => Ok(text),
        Err(e) => match e.reason() {
            handlebars::RenderErrorReason::MissingVariable(name) => Err(
                RawFailure::MissingVariable(name.clone()),
            ),
            _ => Err(RawFailure::Other(e.to_string())),
        },
    }
}

/// Renders a template against a binding set in strict mode: the engine's text
/// on success, an undefined-variable error naming the variable the engine
/// missed, or the engine's own text for any other refusal.
pub fn render(template: &str, bindings: &BindingSet) -> (r: Result<String, Error>)
    ensures
        rendered_view(r) == render_spec(template@, bindings@),
{
    match hb_render_strict(template, bindings) {
        Ok(text) => Ok(text),
        Err(RawFailure::MissingVariable(name)) => Err(Error::UndefinedVariable(name)),
        Err(RawFailure::Other(msg)) => Err(Error::RenderSyntax(msg)),
    }
}

} // verus!
