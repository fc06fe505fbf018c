//! The whole invocation as one function: resolve once, then render once.
//!
//! The caller supplies what only the process's edges know — the mode its
//! arguments chose, what became of the source file, a snapshot of the ambient
//! environment, and the template text — and gets back the rendered text or
//! the one terminal error. Nothing is retried, and no state survives the
//! call.

use vstd::prelude::*;

use crate::bindings::pair_views;
use crate::errors::{Error, ErrorView};
use crate::render::{render, render_spec, rendered_view};
use crate::resolve::{resolve, resolve_spec, Mode, SourceOutcome};

verus! {

/// The outcome an invocation owes: the rendering of the template against the
/// resolved binding set, or the first error on the way there.
pub open spec fn run_spec(
    mode: Mode,
    source: SourceOutcome,
    ambient: Seq<(Seq<char>, Seq<char>)>,
    template: Seq<char>,
) -> Result<Seq<char>, ErrorView> {
    match resolve_spec(mode, source, ambient) {
        Ok(bindings) => render_spec(template, bindings),
        Err(e) => Err(e),
    }
}

/// Resolves the binding set for `mode` and renders `template` against it in
/// strict mode. Every failure is terminal and reported exactly once.
pub fn run(
    mode: Mode,
    source: SourceOutcome,
    ambient: Vec<(String, String)>,
    template: &str,
) -> (r: Result<String, Error>)
    ensures
        rendered_view(r) == run_spec(mode, source, pair_views(ambient@), template@),
{
    match resolve(mode, source, ambient) {
        Ok(bindings) => render(template, &bindings),
        Err(e) => Err(e),
    }
}

} // verus!
