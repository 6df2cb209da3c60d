//! Which entry of the bundle answers a request path: the rules, stated over
//! the bundle as a map.

use vstd::prelude::*;
use vstd::string::*;
use crate::assets::{default_entry, default_key, AssetEntry, AssetEntryView, AssetSource};
use crate::encoding::CompressionMethod;
use crate::text::Scan;

verus! {

/// What is done when no entry answers the path.
#[derive(Debug, Clone, Copy, PartialEq, Eq, Structural, Hash)]
pub enum FallbackBehavior {
    /// The fallback document is served with status 404.
    NotFound,
    /// The client is sent to the fallback document.
    Redirect,
    /// The fallback document is served with status 200.
    Okay,
}

/// The settings of a handler, as plain values.
pub struct Settings {
    pub fallback: Option<Seq<char>>,
    pub behavior: FallbackBehavior,
    pub index: Option<Seq<char>>,
}

/// The outcome of resolving one request.
#[derive(Debug, Clone)]
pub enum Resolution {
    /// `entry` is served for the logical key `key`; it is stored compressed by `method`.
    Found { key: String, entry: AssetEntry, method: CompressionMethod, is_fallback: bool },
    /// The client is sent to `target`.
    Redirect { target: String, is_fallback: bool },
}

/// An outcome, as plain values.
pub enum ResolutionView {
    Found { key: Seq<char>, entry: AssetEntryView, method: CompressionMethod, is_fallback: bool },
    Redirect { target: Seq<char>, is_fallback: bool },
}

impl View for Resolution {
    type V = ResolutionView;

    open spec fn view(&self) -> ResolutionView {
        match *self {
            Resolution::Found { key, entry, method, is_fallback } => ResolutionView::Found {
                key: key@,
                entry: entry@,
                method,
                is_fallback,
            },
            Resolution::Redirect { target, is_fallback } => ResolutionView::Redirect {
                target: target@,
                is_fallback,
            },
        }
    }
}

/// The view of an outcome that may be missing.
pub open spec fn outcome_view(r: Option<Resolution>) -> Option<ResolutionView> {
    match r {
        Some(x) => Some(x@),
        None => None,
    }
}

/// The path without one leading slash.
pub open spec fn strip_slash(path: Seq<char>) -> Seq<char> {
    if path.len() > 0 && path[0] == '/' {
        path.skip(1)
    } else {
        path
    }
}

/// Whether the path names a directory without its closing slash: the
/// directory's index document exists, and the client is to ask again.
pub open spec fn needs_slash(
    contents: Map<Seq<char>, AssetEntryView>,
    index: Option<Seq<char>>,
    path: Seq<char>,
) -> bool {
    let c = strip_slash(path);
    &&& c.len() > 0
    &&& c.last() != '/'
    &&& index is Some
    &&& contents.contains_key(c + seq!['/'] + index->0)
}

/// The key that is looked up for the path: the index document for the root,
/// and for a directory where that document exists; else the path as it stands.
pub open spec fn candidate_key(
    contents: Map<Seq<char>, AssetEntryView>,
    index: Option<Seq<char>>,
    path: Seq<char>,
) -> Seq<char> {
    let c = strip_slash(path);
    if c.len() == 0 {
        match index {
            Some(i) => i,
            None => c,
        }
    } else if c.last() == '/' && index is Some && contents.contains_key(c + index->0) {
        c + index->0
    } else {
        c
    }
}

/// The first of the preferred codings under whose suffix a variant of `key`
/// is stored; identity where there is none.
pub open spec fn chosen_method(
    contents: Map<Seq<char>, AssetEntryView>,
    key: Seq<char>,
    prefs: Seq<CompressionMethod>,
) -> CompressionMethod
    decreases prefs.len(),
{
    if prefs.len() == 0 {
        CompressionMethod::Identity
    } else if contents.contains_key(key + prefs[0].spec_extension()) {
        prefs[0]
    } else {
        chosen_method(contents, key, prefs.skip(1))
    }
}

/// The stored variant that is served for `key`, which must itself be stored.
pub open spec fn variant_of(
    contents: Map<Seq<char>, AssetEntryView>,
    key: Seq<char>,
    prefs: Seq<CompressionMethod>,
    is_fallback: bool,
) -> Option<ResolutionView> {
    if contents.contains_key(key) {
        let method = chosen_method(contents, key, prefs);
        Some(
            ResolutionView::Found {
                key,
                entry: contents[key + method.spec_extension()],
                method,
                is_fallback,
            },
        )
    } else {
        None
    }
}

/// One attempt at a path: a redirect to the directory, an entry, or a miss.
pub open spec fn resolved(
    contents: Map<Seq<char>, AssetEntryView>,
    index: Option<Seq<char>>,
    path: Seq<char>,
    prefs: Seq<CompressionMethod>,
) -> Option<ResolutionView> {
    if needs_slash(contents, index, path) {
        Some(
            ResolutionView::Redirect {
                target: seq!['/'] + strip_slash(path) + seq!['/'],
                is_fallback: false,
            },
        )
    } else {
        variant_of(contents, candidate_key(contents, index, path), prefs, false)
    }
}

/// What is reported when every attempt at the path has missed.
pub open spec fn fallback_outcome(
    contents: Map<Seq<char>, AssetEntryView>,
    settings: Settings,
    path: Seq<char>,
    prefs: Seq<CompressionMethod>,
) -> ResolutionView {
    if settings.fallback is Some && settings.fallback->0 != path && settings.behavior
        == FallbackBehavior::Redirect {
        ResolutionView::Redirect { target: seq!['/'] + settings.fallback->0, is_fallback: true }
    } else if settings.fallback is Some && contents.contains_key(settings.fallback->0) {
        variant_of(contents, settings.fallback->0, prefs, true)->0
    } else {
        ResolutionView::Found {
            key: default_key(),
            entry: default_entry(),
            method: CompressionMethod::Identity,
            is_fallback: true,
        }
    }
}

/// What is reported once the path as received has missed: `decoded` is tried
/// where it differs from the path, then the fallback rules apply.
pub open spec fn after_miss(
    contents: Map<Seq<char>, AssetEntryView>,
    settings: Settings,
    path: Seq<char>,
    decoded: Seq<char>,
    prefs: Seq<CompressionMethod>,
) -> ResolutionView {
    if decoded != path && resolved(contents, settings.index, decoded, prefs) is Some {
        resolved(contents, settings.index, decoded, prefs)->0
    } else {
        fallback_outcome(contents, settings, path, prefs)
    }
}

/// The outcome for a path whose percent-decoded form is `decoded`.
pub open spec fn resolution(
    contents: Map<Seq<char>, AssetEntryView>,
    settings: Settings,
    path: Seq<char>,
    decoded: Seq<char>,
    prefs: Seq<CompressionMethod>,
) -> ResolutionView {
    match resolved(contents, settings.index, path, prefs) {
        Some(r) => r,
        None => after_miss(contents, settings, path, decoded, prefs),
    }
}

/// The rule that settles a request, in the order in which the rules are tried.
#[derive(Debug, Clone, Copy, PartialEq, Eq, Structural, Hash)]
pub enum Rule {
    /// The path is the root: the index document, where one is set.
    Root,
    /// The path ends with a slash: the directory's index document, where it exists.
    TrailingSlash,
    /// The path names a directory without its closing slash: the client is sent there.
    NonTrailingWithIndexRedirect,
    /// The path is looked up as it stands.
    ExactLookup,
    /// The path as received missed, and its percent-decoded form did not.
    DecodedRetry,
    /// Nothing was found, and the client is sent to the fallback document.
    FallbackRedirect,
    /// Nothing was found, and the fallback document is served.
    FallbackDocument,
    /// Nothing was found, no fallback document either: the built-in document.
    BuiltinDefault,
}

/// The rule under which one attempt at `path` is made.
pub open spec fn attempt_rule(
    contents: Map<Seq<char>, AssetEntryView>,
    index: Option<Seq<char>>,
    path: Seq<char>,
) -> Rule {
    let c = strip_slash(path);
    if c.len() == 0 {
        Rule::Root
    } else if c.last() == '/' {
        Rule::TrailingSlash
    } else if needs_slash(contents, index, path) {
        Rule::NonTrailingWithIndexRedirect
    } else {
        Rule::ExactLookup
    }
}

/// The rule that settles a request once the path as received has missed.
pub open spec fn rule_after_miss(
    contents: Map<Seq<char>, AssetEntryView>,
    settings: Settings,
    path: Seq<char>,
    decoded: Seq<char>,
    prefs: Seq<CompressionMethod>,
) -> Rule {
    if decoded != path && resolved(contents, settings.index, decoded, prefs) is Some {
        Rule::DecodedRetry
    } else if settings.fallback is Some && settings.fallback->0 != path && settings.behavior
        == FallbackBehavior::Redirect {
        Rule::FallbackRedirect
    } else if settings.fallback is Some && contents.contains_key(settings.fallback->0) {
        Rule::FallbackDocument
    } else {
        Rule::BuiltinDefault
    }
}

/// The rule that settles a request for a path whose percent-decoded form is `decoded`.
pub open spec fn deciding_rule(
    contents: Map<Seq<char>, AssetEntryView>,
    settings: Settings,
    path: Seq<char>,
    decoded: Seq<char>,
    prefs: Seq<CompressionMethod>,
) -> Rule {
    if resolved(contents, settings.index, path, prefs) is Some {
        attempt_rule(contents, settings.index, path)
    } else {
        rule_after_miss(contents, settings, path, decoded, prefs)
    }
}

/// Whether every attempt at the path misses, so that the fallback rules apply.
pub open spec fn misses(
    contents: Map<Seq<char>, AssetEntryView>,
    index: Option<Seq<char>>,
    path: Seq<char>,
    decoded: Seq<char>,
    prefs: Seq<CompressionMethod>,
) -> bool {
    &&& resolved(contents, index, path, prefs) is None
    &&& decoded == path || resolved(contents, index, decoded, prefs) is None
}

/// The path without one leading slash, as a slice of it.
pub fn without_leading_slash(path: &str) -> (r: &str)
    ensures
        r@ == strip_slash(path@),
{
    let scan = Scan::new(path);
    let n: usize = scan.len();
    if n > 0 && scan.at(0) == '/' {
        scan.slice(1, n)
    } else {
        path
    }
}

/// The text `a` followed by `b`.
pub fn joined(a: &str, b: &str) -> (r: String)
    ensures
        r@ == a@ + b@,
{
    String::from_str(a).concat(b)
}

/// Looks up `key` and picks the stored variant that the client prefers.
pub fn select_variant<S: AssetSource>(
    source: &S,
    key: &str,
    prefs: &[CompressionMethod],
    is_fallback: bool,
) -> (r: Option<Resolution>)
    ensures
        outcome_view(r) == variant_of(source.contents(), key@, prefs@, is_fallback),
{
    let base = match source.get(key) {
        Some(e) => e,
        None => {
            return None;
        },
    };
    let mut i: usize = 0;
    proof {
        assert(prefs@.skip(0) =~= prefs@);
    }
    while i < prefs.len()
        invariant
            i <= prefs@.len(),
            source.contents().contains_key(key@),
            base@ == source.contents()[key@],
            chosen_method(source.contents(), key@, prefs@) == chosen_method(
                source.contents(),
                key@,
                prefs@.skip(i as int),
            ),
        decreases prefs@.len() - i,
    {
        let method = prefs[i];
        let name = joined(key, method.extension());
        proof {
            assert(prefs@.skip(i as int).skip(1) =~= prefs@.skip(i + 1));
        }
        match source.get(name.as_str()) {
            Some(entry) => {
                let found = Resolution::Found {
                    key: String::from_str(key),
                    entry,
                    method,
                    is_fallback,
                };
                return Some(found);
            },
            None => {},
        }
        i += 1;
    }
    Some(
        Resolution::Found {
            key: String::from_str(key),
            entry: base,
            method: CompressionMethod::Identity,
            is_fallback,
        },
    )
}

} // verus!
