//! The handler: its settings, a request, and the one response it gets.

use vstd::prelude::*;
use vstd::string::*;
use crate::assets::{builtin_not_found, AssetEntryView, AssetSource};
use crate::encoding::{accepted_methods, from_acceptable_encoding, CompressionMethod};
use crate::resolve::{
    after_miss, deciding_rule, joined, outcome_view, resolution, resolved, rule_after_miss,
    select_variant, without_leading_slash, FallbackBehavior, Resolution, ResolutionView, Rule,
    Settings,
};
use crate::response::{
    assemble, date_text, date_to_string, guess_content_type, guessed_mime, method_not_allowed,
    refuse_method, response_for, text_view, Response, ResponseView,
};
use crate::text::{same_text, Scan};

verus! {

/// What the handler reads of a request.
#[derive(Debug, Clone)]
pub struct Request {
    /// The method, as the client wrote it.
    pub method: String,
    /// The path as received, still percent-encoded.
    pub path: String,
    /// The value of `accept-encoding`, where the client sent one.
    pub accept_encoding: Option<String>,
    /// The value of `if-none-match`, where the client sent one.
    pub if_none_match: Option<String>,
}

/// A request, as plain values.
pub struct RequestView {
    pub method: Seq<char>,
    pub path: Seq<char>,
    pub accept_encoding: Option<Seq<char>>,
    pub if_none_match: Option<Seq<char>>,
}

/// The view of an owned text that may be missing.
pub open spec fn owned_view(t: Option<String>) -> Option<Seq<char>> {
    match t {
        Some(s) => Some(s@),
        None => None,
    }
}

impl View for Request {
    type V = RequestView;

    open spec fn view(&self) -> RequestView {
        RequestView {
            method: self.method@,
            path: self.path@,
            accept_encoding: owned_view(self.accept_encoding),
            if_none_match: owned_view(self.if_none_match),
        }
    }
}

impl Request {
    /// A request of the given method and path, with the two header values.
    pub fn new(
        method: String,
        path: String,
        accept_encoding: Option<String>,
        if_none_match: Option<String>,
    ) -> (r: Request)
        ensures
            r@ == (RequestView {
                method: method@,
                path: path@,
                accept_encoding: owned_view(accept_encoding),
                if_none_match: owned_view(if_none_match),
            }),
    {
        Request { method, path, accept_encoding, if_none_match }
    }
}

/// The text of a path with its percent-encoded bytes decoded, and what is
/// then no UTF-8 replaced, as `percent_encoding` does both.
pub uninterp spec fn percent_decoded(path: Seq<char>) -> Seq<char>;

/// Calls `percent_encoding::percent_decode_str` and its `decode_utf8_lossy`.
/// The contract only names the text that comes back.
#[verifier::external_body]
pub(crate) fn percent_decode_lossy(path: &str) -> (r: String)
    ensures
        r@ == percent_decoded(path@),
{
    percent_encoding::percent_decode_str(path).decode_utf8_lossy().into_owned()
}

/// Whether the method is one that is served.
pub open spec fn method_allowed(method: Seq<char>) -> bool {
    method == "GET"@ || method == "HEAD"@
}

/// The media type that goes with an outcome: that of a found key.
pub open spec fn outcome_content_type(outcome: ResolutionView) -> Seq<char> {
    match outcome {
        ResolutionView::Found { key, .. } => guessed_mime(key),
        ResolutionView::Redirect { .. } => Seq::empty(),
    }
}

/// The date text that goes with an outcome: that of a found entry.
pub open spec fn outcome_date(outcome: ResolutionView) -> Option<Seq<char>> {
    match outcome {
        ResolutionView::Found { entry, .. } => date_text(entry),
        ResolutionView::Redirect { .. } => None,
    }
}

/// The response that is owed to a request whose path has the
/// percent-decoded form `decoded`, given the bundle.
pub open spec fn served_with(
    contents: Map<Seq<char>, AssetEntryView>,
    settings: Settings,
    request: RequestView,
    decoded: Seq<char>,
) -> ResponseView {
    if !method_allowed(request.method) {
        method_not_allowed()
    } else {
        let outcome = resolution(
            contents,
            settings,
            request.path,
            decoded,
            accepted_methods(request.accept_encoding),
        );
        response_for(
            outcome,
            settings.behavior,
            request.if_none_match,
            outcome_content_type(outcome),
            outcome_date(outcome),
        )
    }
}

/// The response that the handler owes to a request, given the bundle.
pub open spec fn served(
    contents: Map<Seq<char>, AssetEntryView>,
    settings: Settings,
    request: RequestView,
) -> ResponseView {
    served_with(contents, settings, request, percent_decoded(request.path))
}

/// A copy of a text that may be missing.
pub fn copy_text(t: &Option<String>) -> (r: Option<String>)
    ensures
        owned_view(r) == owned_view(*t),
{
    match t {
        Some(s) => Some(s.clone()),
        None => None,
    }
}

/// A borrowed form of a text that may be missing.
pub fn borrow_text(t: &Option<String>) -> (r: Option<&str>)
    ensures
        text_view(r) == owned_view(*t),
{
    match t {
        Some(s) => Some(s.as_str()),
        None => None,
    }
}

/// A handler's settings: the fallback document and what is done with it,
/// and the name of the index document of a directory.
#[derive(Debug, Clone)]
pub struct ServeEmbed {
    fallback_file: Option<String>,
    fallback_behavior: FallbackBehavior,
    index_file: Option<String>,
}

impl View for ServeEmbed {
    type V = Settings;

    closed spec fn view(&self) -> Settings {
        Settings {
            fallback: owned_view(self.fallback_file),
            behavior: self.fallback_behavior,
            index: owned_view(self.index_file),
        }
    }
}

impl ServeEmbed {
    /// The usual settings: no fallback document, status 404 where nothing
    /// is found, and `index.html` as the index document.
    pub fn new() -> (r: ServeEmbed)
        ensures
            r@ == (Settings {
                fallback: None,
                behavior: FallbackBehavior::NotFound,
                index: Some("index.html"@),
            }),
    {
        ServeEmbed::with_parameters(
            None,
            FallbackBehavior::NotFound,
            Some(String::from_str("index.html")),
        )
    }

    /// Settings with the given fallback document, the behaviour where
    /// nothing is found, and the name of the index document; `None` for the
    /// first serves the built-in document, for the last no index document.
    pub fn with_parameters(
        fallback_file: Option<String>,
        fallback_behavior: FallbackBehavior,
        index_file: Option<String>,
    ) -> (r: ServeEmbed)
        ensures
            r@ == (Settings {
                fallback: owned_view(fallback_file),
                behavior: fallback_behavior,
                index: owned_view(index_file),
            }),
    {
        ServeEmbed { fallback_file, fallback_behavior, index_file }
    }

    /// Binds a request to the settings.
    pub fn call(&self, request: Request) -> (r: ServeFuture)
        ensures
            r.settings() == self@,
            r.request() == request,
    {
        ServeFuture {
            fallback_behavior: self.fallback_behavior,
            fallback_file: copy_text(&self.fallback_file),
            index_file: copy_text(&self.index_file),
            request,
        }
    }

    /// The response to `request`, given the bundle `source`.
    pub fn handle<S: AssetSource>(&self, source: &S, request: Request) -> (r: Response)
        ensures
            r@ == served(source.contents(), self@, request@),
    {
        self.call(request).poll(source)
    }
}

/// A request bound to the settings under which it is answered.
#[derive(Debug, Clone)]
pub struct ServeFuture {
    fallback_behavior: FallbackBehavior,
    fallback_file: Option<String>,
    index_file: Option<String>,
    request: Request,
}

impl ServeFuture {
    /// The settings under which the request is answered.
    pub closed spec fn settings(&self) -> Settings {
        Settings {
            fallback: owned_view(self.fallback_file),
            behavior: self.fallback_behavior,
            index: owned_view(self.index_file),
        }
    }

    /// The request that is answered.
    pub closed spec fn request(&self) -> Request {
        self.request
    }

    /// One attempt at `path`: a redirect to the directory, an entry in the
    /// variant that the client prefers, or a miss.
    pub fn get_file<S: AssetSource>(
        &self,
        source: &S,
        path: &str,
        acceptable_encoding: &[CompressionMethod],
    ) -> (r: Option<Resolution>)
        ensures
            outcome_view(r) == resolved(
                source.contents(),
                self.settings().index,
                path@,
                acceptable_encoding@,
            ),
    {
        let stripped = without_leading_slash(path);
        let scan = Scan::new(stripped);
        let n: usize = scan.len();
        let candidate: String = if n == 0 {
            match &self.index_file {
                Some(index) => index.clone(),
                None => String::from_str(stripped),
            }
        } else if scan.at(n - 1) == '/' {
            match &self.index_file {
                Some(index) => {
                    let with_index = joined(stripped, index.as_str());
                    if source.get(with_index.as_str()).is_some() {
                        with_index
                    } else {
                        String::from_str(stripped)
                    }
                },
                None => String::from_str(stripped),
            }
        } else {
            match &self.index_file {
                Some(index) => {
                    let directory = joined(stripped, "/");
                    let with_index = joined(directory.as_str(), index.as_str());
                    proof {
                        reveal_strlit("/");
                        assert("/"@ =~= seq!['/']);
                    }
                    if source.get(with_index.as_str()).is_some() {
                        let target = joined("/", directory.as_str());
                        assert(target@ =~= seq!['/'] + stripped@ + seq!['/']);
                        return Some(Resolution::Redirect { target, is_fallback: false });
                    }
                },
                None => {},
            }
            String::from_str(stripped)
        };
        select_variant(source, candidate.as_str(), acceptable_encoding, false)
    }

    /// What is reported once `path` as received has missed: `decoded`, its
    /// percent-decoded form, is tried where it differs, then the fallback
    /// document, then the built-in one.
    pub fn retry_or_fallback<S: AssetSource>(
        &self,
        source: &S,
        path: &str,
        decoded: &str,
        acceptable_encoding: &[CompressionMethod],
    ) -> (r: (Rule, Resolution))
        ensures
            r.0 == rule_after_miss(
                source.contents(),
                self.settings(),
                path@,
                decoded@,
                acceptable_encoding@,
            ),
            r.1@ == after_miss(
                source.contents(),
                self.settings(),
                path@,
                decoded@,
                acceptable_encoding@,
            ),
    {
        if !same_text(decoded, path) {
            match self.get_file(source, decoded, acceptable_encoding) {
                Some(found) => {
                    return (Rule::DecodedRetry, found);
                },
                None => {},
            }
        }
        match &self.fallback_file {
            Some(fallback) => {
                if !same_text(fallback.as_str(), path) && self.fallback_behavior
                    == FallbackBehavior::Redirect {
                    proof {
                        reveal_strlit("/");
                        assert("/"@ =~= seq!['/']);
                    }
                    let target = joined("/", fallback.as_str());
                    return (
                        Rule::FallbackRedirect,
                        Resolution::Redirect { target, is_fallback: true },
                    );
                }
                match select_variant(source, fallback.as_str(), acceptable_encoding, true) {
                    Some(found) => {
                        return (Rule::FallbackDocument, found);
                    },
                    None => {},
                }
            },
            None => {},
        }
        (
            Rule::BuiltinDefault,
            Resolution::Found {
                key: String::from_str("404.html"),
                entry: builtin_not_found(),
                method: CompressionMethod::Identity,
                is_fallback: true,
            },
        )
    }

    /// The outcome for `path`, with the rule that settled it.
    pub fn trace<S: AssetSource>(
        &self,
        source: &S,
        path: &str,
        acceptable_encoding: &[CompressionMethod],
    ) -> (r: (Rule, Resolution))
        ensures
            r.0 == deciding_rule(
                source.contents(),
                self.settings(),
                path@,
                percent_decoded(path@),
                acceptable_encoding@,
            ),
            r.1@ == resolution(
                source.contents(),
                self.settings(),
                path@,
                percent_decoded(path@),
                acceptable_encoding@,
            ),
    {
        match self.get_file(source, path, acceptable_encoding) {
            Some(found) => {
                let scan = Scan::new(without_leading_slash(path));
                let n: usize = scan.len();
                let rule = if n == 0 {
                    Rule::Root
                } else if scan.at(n - 1) == '/' {
                    Rule::TrailingSlash
                } else {
                    match &found {
                        Resolution::Redirect { .. } => Rule::NonTrailingWithIndexRedirect,
                        Resolution::Found { .. } => Rule::ExactLookup,
                    }
                };
                (rule, found)
            },
            None => {
                let decoded = percent_decode_lossy(path);
                self.retry_or_fallback(source, path, decoded.as_str(), acceptable_encoding)
            },
        }
    }

    /// The outcome for `path`: the path as received, then its
    /// percent-decoded form, then the fallback rules.
    pub fn get_file_with_fallback<S: AssetSource>(
        &self,
        source: &S,
        path: &str,
        acceptable_encoding: &[CompressionMethod],
    ) -> (r: Resolution)
        ensures
            r@ == resolution(
                source.contents(),
                self.settings(),
                path@,
                percent_decoded(path@),
                acceptable_encoding@,
            ),
    {
        self.trace(source, path, acceptable_encoding).1
    }

    /// The response to the request, given the bundle `source`.
    pub fn poll<S: AssetSource>(&self, source: &S) -> (r: Response)
        ensures
            r@ == served(source.contents(), self.settings(), self.request()@),
    {
        let method = self.request.method.as_str();
        if !same_text(method, "GET") && !same_text(method, "HEAD") {
            return refuse_method();
        }
        let prefs = from_acceptable_encoding(borrow_text(&self.request.accept_encoding));
        let outcome = self.get_file_with_fallback(
            source,
            self.request.path.as_str(),
            prefs.as_slice(),
        );
        let if_none_match = borrow_text(&self.request.if_none_match);
        match &outcome {
            Resolution::Found { key, entry, .. } => {
                let content_type = guess_content_type(key.as_str());
                let date = match entry.last_modified {
                    Some(time) => date_to_string(time),
                    None => None,
                };
                assemble(
                    outcome,
                    self.fallback_behavior,
                    if_none_match,
                    content_type.as_str(),
                    borrow_text(&date),
                )
            },
            Resolution::Redirect { .. } => assemble(
                outcome,
                self.fallback_behavior,
                if_none_match,
                "",
                None,
            ),
        }
    }
}

} // verus!
