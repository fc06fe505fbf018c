//! The variable resolver: which bindings a template gets to see.
//!
//! A resolution runs once per invocation. In the file-only modes the binding
//! set is exactly what the source file defines; in the all-environment modes
//! the whole ambient process environment is exposed as well, the file's
//! values winning on conflict. Only the all-environment mode with no explicit
//! source tolerates a missing source file, falling back to the ambient
//! environment alone.

use vstd::prelude::*;

use crate::bindings::{keys_of, lemma_map_of_pairs_dom, map_of_pairs, pair_views, BindingSet};
use crate::errors::{Error, ErrorView};

verus! {

/// How the binding set of one invocation is scoped.
#[derive(Debug, Clone, Copy, PartialEq, Eq, Structural)]
pub enum Mode {
    /// Only the default source file's pairs are visible.
    FileOnlyDefault,
    /// Only a named source file's pairs are visible.
    FileOnlyExplicit,
    /// The whole ambient environment is visible, merged with the default
    /// source file if it exists.
    AllEnvironmentDefault,
    /// The whole ambient environment is visible, merged with a named source
    /// file that must exist.
    AllEnvironmentExplicit,
}

/// Whether a mode exposes the ambient process environment.
pub open spec fn exposes_ambient(mode: Mode) -> bool {
    mode == Mode::AllEnvironmentDefault || mode == Mode::AllEnvironmentExplicit
}

/// Whether a mode tolerates the source file being absent: only the
/// all-environment mode with no explicit source does, because the ambient
/// environment is its fallback.
pub open spec fn tolerates_missing_source(mode: Mode) -> bool {
    mode == Mode::AllEnvironmentDefault
}

/// What became of the environment-definition file before resolution: its
/// parsed pairs in order, or the text of the failure.
pub enum SourceOutcome {
    /// The file was read and parsed into these `(key, value)` pairs, in file
    /// order.
    Loaded(Vec<(String, String)>),
    /// The file was missing or unreadable.
    Missing(String),
    /// The file's contents violated the line grammar.
    Malformed(String),
}

/// The binding set (or error) that resolution owes for each mode and source
/// outcome.
pub open spec fn resolve_spec(
    mode: Mode,
    source: SourceOutcome,
    ambient: Seq<(Seq<char>, Seq<char>)>,
) -> Result<Map<Seq<char>, Seq<char>>, ErrorView> {
    match source {
        SourceOutcome::Loaded(pairs) => if exposes_ambient(mode) {
            Ok(map_of_pairs(ambient + pair_views(pairs@)))
        } else {
            Ok(map_of_pairs(pair_views(pairs@)))
        },
        SourceOutcome::Missing(msg) => if tolerates_missing_source(mode) {
            Ok(map_of_pairs(ambient))
        } else {
            Err(ErrorView::SourceIo(msg@))
        },
        SourceOutcome::Malformed(msg) => Err(ErrorView::SourceParse(msg@)),
    }
}

/// The view of a resolution result.
pub open spec fn resolved_view(r: Result<BindingSet, Error>) -> Result<
    Map<Seq<char>, Seq<char>>,
    ErrorView,
> {
    match r {
        Ok(b) => Ok(b@),
        Err(e) => Err(e@),
    }
}

/// Produces the binding set for one invocation: exactly the source file's
/// pairs in the file-only modes, the ambient environment overlaid with those
/// pairs in the all-environment modes, and the ambient environment alone when
/// the only mode that tolerates a missing source meets one.
pub fn resolve(mode: Mode, source: SourceOutcome, ambient: Vec<(String, String)>) -> (r: Result<
    BindingSet,
    Error,
>)
    ensures
        resolved_view(r) == resolve_spec(mode, source, pair_views(ambient@)),
{
    match source {
        SourceOutcome::Loaded(pairs) => match mode {
            Mode::AllEnvironmentDefault | Mode::AllEnvironmentExplicit => {
                let ghost ambient0 = ambient@;
                let ghost pairs0 = pairs@;
                let b = BindingSet::merged(ambient, pairs);
                proof {
                    crate::bindings::lemma_map_of_pairs_concat(
                        pair_views(ambient0),
                        pair_views(pairs0),
                    );
                }
                Ok(b)
            },
            Mode::FileOnlyDefault | Mode::FileOnlyExplicit => Ok(BindingSet::from_pairs(pairs)),
        },
        SourceOutcome::Missing(msg) => match mode {
            Mode::AllEnvironmentDefault => Ok(BindingSet::from_pairs(ambient)),
            _ => Err(Error::SourceIo(msg)),
        },
        SourceOutcome::Malformed(msg) => Err(Error::SourceParse(msg)),
    }
}

/// In an all-environment resolution that loaded a source file, a variable
/// defined in the ambient environment is still bound, and keeps its ambient
/// value unless the file redefines it.
pub proof fn lemma_all_environment_ambient_visible(
    mode: Mode,
    pairs: Vec<(String, String)>,
    ambient: Seq<(Seq<char>, Seq<char>)>,
    k: Seq<char>,
)
    requires
        exposes_ambient(mode),
        map_of_pairs(ambient).dom().contains(k),
    ensures
        resolve_spec(mode, SourceOutcome::Loaded(pairs), ambient) matches Ok(b) && {
            &&& b.dom().contains(k)
            &&& !keys_of(pair_views(pairs@)).contains(k) ==> b[k] == map_of_pairs(ambient)[k]
        },
{
    crate::bindings::lemma_map_of_pairs_concat(ambient, pair_views(pairs@));
    lemma_map_of_pairs_dom(pair_views(pairs@));
}

/// A file-only resolution is independent of the ambient environment: two
/// invocations that read the same source the same way produce the same
/// result, whatever the ambient environment holds.
pub proof fn lemma_file_only_isolated(
    mode: Mode,
    source: SourceOutcome,
    ambient1: Seq<(Seq<char>, Seq<char>)>,
    ambient2: Seq<(Seq<char>, Seq<char>)>,
)
    requires
        !exposes_ambient(mode),
    ensures
        resolve_spec(mode, source, ambient1) == resolve_spec(mode, source, ambient2),
{
}

/// In a file-only resolution, a variable the source file does not define is
/// not bound, even if the ambient environment defines it.
pub proof fn lemma_file_only_excludes_undefined(
    mode: Mode,
    pairs: Vec<(String, String)>,
    ambient: Seq<(Seq<char>, Seq<char>)>,
    k: Seq<char>,
)
    requires
        !exposes_ambient(mode),
        !keys_of(pair_views(pairs@)).contains(k),
    ensures
        resolve_spec(mode, SourceOutcome::Loaded(pairs), ambient) matches Ok(b)
            && !b.dom().contains(k),
{
    lemma_map_of_pairs_dom(pair_views(pairs@));
}

/// A missing source file is tolerated by exactly one mode: all-environment
/// resolution with no explicit source falls back to the ambient environment
/// alone, while file-only resolution with no explicit source fails with the
/// file's I/O error.
pub proof fn lemma_default_missing_asymmetry(msg: String, ambient: Seq<(Seq<char>, Seq<char>)>)
    ensures
        resolve_spec(Mode::AllEnvironmentDefault, SourceOutcome::Missing(msg), ambient) == Ok::<
            Map<Seq<char>, Seq<char>>,
            ErrorView,
        >(map_of_pairs(ambient)),
        resolve_spec(Mode::FileOnlyDefault, SourceOutcome::Missing(msg), ambient) == Err::<
            Map<Seq<char>, Seq<char>>,
            ErrorView,
        >(ErrorView::SourceIo(msg@)),
{
}

} // verus!
