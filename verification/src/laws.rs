//! What holds of the handler's responses, proved from the definitions.
//!
//! Each law about a response is stated of `served_with` and an arbitrary
//! `decoded`: it holds whatever the percent-decoded form of the path is,
//! and so of the response that the handler gives, which is `served_with`
//! at the decoded form that it computes.

use vstd::prelude::*;
use vstd::utf8::encode_utf8;
use crate::assets::{default_entry, default_key, AssetEntryView};
use crate::encoding::{accepted_methods, CompressionMethod};
use crate::resolve::{
    candidate_key, chosen_method, deciding_rule, misses, resolution, resolved, strip_slash,
    variant_of, FallbackBehavior, ResolutionView, Rule, Settings,
};
use crate::response::{
    found_headers, header_value, hex_of, method_not_allowed, validator_matches,
};
use crate::service::{
    method_allowed, outcome_content_type, outcome_date, served_with, RequestView,
};
use crate::text::trim_quotes;

verus! {

/// Whether a request for `/key` is an attempt at `key` itself: the key is
/// not empty, and no index document makes a directory of it.
pub open spec fn names_itself(
    contents: Map<Seq<char>, AssetEntryView>,
    index: Option<Seq<char>>,
    key: Seq<char>,
) -> bool {
    &&& key.len() > 0
    &&& index is Some ==> !contents.contains_key(
        if key.last() == '/' {
            key + index->0
        } else {
            key + seq!['/'] + index->0
        },
    )
}

/// Whether no compressed variant of `key` is stored.
pub open spec fn no_siblings(contents: Map<Seq<char>, AssetEntryView>, key: Seq<char>) -> bool {
    &&& !contents.contains_key(key + CompressionMethod::Brotli.spec_extension())
    &&& !contents.contains_key(key + CompressionMethod::Gzip.spec_extension())
    &&& !contents.contains_key(key + CompressionMethod::Zlib.spec_extension())
}

/// The coding that is chosen is identity, or one whose variant is stored.
pub proof fn lemma_chosen_is_stored(
    contents: Map<Seq<char>, AssetEntryView>,
    key: Seq<char>,
    prefs: Seq<CompressionMethod>,
)
    ensures
        chosen_method(contents, key, prefs) == CompressionMethod::Identity || contents.contains_key(
            key + chosen_method(contents, key, prefs).spec_extension(),
        ),
    decreases prefs.len(),
{
    if prefs.len() > 0 && !contents.contains_key(key + prefs[0].spec_extension()) {
        lemma_chosen_is_stored(contents, key, prefs.skip(1));
    }
}

/// A key that is stored without compressed variants is served as it is.
pub proof fn lemma_plain_variant(
    contents: Map<Seq<char>, AssetEntryView>,
    key: Seq<char>,
    prefs: Seq<CompressionMethod>,
    is_fallback: bool,
)
    requires
        contents.contains_key(key),
        no_siblings(contents, key),
    ensures
        variant_of(contents, key, prefs, is_fallback) == Some(
            ResolutionView::Found {
                key,
                entry: contents[key],
                method: CompressionMethod::Identity,
                is_fallback,
            },
        ),
{
    lemma_chosen_is_stored(contents, key, prefs);
}

/// A request for `/key`, where `key` names itself, is an attempt at `key`.
pub proof fn lemma_attempt_at_key(
    contents: Map<Seq<char>, AssetEntryView>,
    index: Option<Seq<char>>,
    key: Seq<char>,
    prefs: Seq<CompressionMethod>,
)
    requires
        names_itself(contents, index, key),
    ensures
        resolved(contents, index, seq!['/'] + key, prefs) == variant_of(
            contents,
            key,
            prefs,
            false,
        ),
{
    let path = seq!['/'] + key;
    assert(strip_slash(path) =~= key);
}

/// No digit of hexadecimal is a double quote, so the hexadecimal form of a
/// digest is its own trimmed form.
pub proof fn lemma_hex_has_no_quotes(bytes: Seq<u8>)
    ensures
        hex_of(bytes).len() == 2 * bytes.len(),
        forall|i: int| 0 <= i < hex_of(bytes).len() ==> hex_of(bytes)[i] != '"',
        trim_quotes(hex_of(bytes)) == hex_of(bytes),
    decreases bytes.len(),
{
    if bytes.len() > 0 {
        lemma_hex_has_no_quotes(bytes.drop_last());
    }
}

/// The names of the headers differ from one another.
pub proof fn lemma_header_names()
    ensures
        "content-type"@ != "etag"@,
        "content-type"@ != "content-encoding"@,
        "etag"@ != "content-encoding"@,
{
    reveal_strlit("content-type");
    reveal_strlit("etag");
    reveal_strlit("content-encoding");
    assert("etag"@.len() == 4);
    assert("content-encoding"@.len() == 16);
}

/// The headers of a found entry carry its digest as the entity tag.
pub proof fn lemma_found_etag(
    entry: AssetEntryView,
    method: CompressionMethod,
    content_type: Seq<char>,
    last_modified: Option<Seq<char>>,
)
    ensures
        header_value(found_headers(entry, method, content_type, last_modified), "etag"@) == Some(
            hex_of(entry.hash),
        ),
        header_value(
            found_headers(entry, method, content_type, last_modified),
            "content-encoding"@,
        ) == method.spec_content_encoding(),
{
    lemma_header_names();
    let h = found_headers(entry, method, content_type, last_modified);
    let h1 = h.skip(1);
    let h2 = h1.skip(1);
    assert(header_value(h, "etag"@) == header_value(h1, "etag"@));
    assert(header_value(h1, "content-encoding"@) == header_value(h2, "content-encoding"@));
    if method.spec_content_encoding() is None {
        reveal_strlit("last-modified");
        reveal_strlit("content-encoding");
        assert("content-encoding"@.len() == 16);
        if last_modified is Some {
            assert(header_value(h2.skip(1), "content-encoding"@) is None);
        }
    }
}

/// A key that is stored without compressed variants, and that no index
/// document makes a directory of, is served with status 200, its digest as
/// entity tag and its own bytes as body, whatever codings the client
/// accepts, unless the request is conditional on that very tag.
pub proof fn law_plain_asset(
    contents: Map<Seq<char>, AssetEntryView>,
    settings: Settings,
    request: RequestView,
    decoded: Seq<char>,
    key: Seq<char>,
)
    requires
        method_allowed(request.method),
        request.path == seq!['/'] + key,
        contents.contains_key(key),
        no_siblings(contents, key),
        names_itself(contents, settings.index, key),
        !validator_matches(request.if_none_match, contents[key]),
    ensures
        served_with(contents, settings, request, decoded).status == 200,
        header_value(served_with(contents, settings, request, decoded).headers, "etag"@) == Some(
            hex_of(contents[key].hash),
        ),
        served_with(contents, settings, request, decoded).body == contents[key].data,
{
    let prefs = accepted_methods(request.accept_encoding);
    lemma_attempt_at_key(contents, settings.index, key, prefs);
    lemma_plain_variant(contents, key, prefs, false);
    let outcome = resolution(contents, settings, request.path, decoded, prefs);
    assert(outcome == ResolutionView::Found {
        key,
        entry: contents[key],
        method: CompressionMethod::Identity,
        is_fallback: false,
    });
    lemma_found_etag(
        contents[key],
        CompressionMethod::Identity,
        outcome_content_type(outcome),
        outcome_date(outcome),
    );
}

/// Where a key and its gzip variant are stored and no Brotli variant is, a
/// client that prefers Brotli, then gzip, then deflate gets the gzip
/// variant: `content-encoding: gzip`, and the variant's bytes as body.
pub proof fn law_gzip_variant(
    contents: Map<Seq<char>, AssetEntryView>,
    settings: Settings,
    request: RequestView,
    decoded: Seq<char>,
    key: Seq<char>,
)
    requires
        method_allowed(request.method),
        request.path == seq!['/'] + key,
        accepted_methods(request.accept_encoding) == seq![
            CompressionMethod::Brotli,
            CompressionMethod::Gzip,
            CompressionMethod::Zlib,
            CompressionMethod::Identity,
        ],
        contents.contains_key(key),
        contents.contains_key(key + CompressionMethod::Gzip.spec_extension()),
        !contents.contains_key(key + CompressionMethod::Brotli.spec_extension()),
        names_itself(contents, settings.index, key),
        !validator_matches(
            request.if_none_match,
            contents[key + CompressionMethod::Gzip.spec_extension()],
        ),
    ensures
        header_value(served_with(contents, settings, request, decoded).headers, "content-encoding"@) == Some(
            seq!['g', 'z', 'i', 'p'],
        ),
        served_with(contents, settings, request, decoded).body == contents[key
            + CompressionMethod::Gzip.spec_extension()].data,
{
    let prefs = accepted_methods(request.accept_encoding);
    lemma_attempt_at_key(contents, settings.index, key, prefs);
    assert(chosen_method(contents, key, prefs.skip(1)) == CompressionMethod::Gzip);
    let outcome = resolution(contents, settings, request.path, decoded, prefs);
    let entry = contents[key + CompressionMethod::Gzip.spec_extension()];
    assert(outcome == ResolutionView::Found {
        key,
        entry,
        method: CompressionMethod::Gzip,
        is_fallback: false,
    });
    lemma_found_etag(
        entry,
        CompressionMethod::Gzip,
        outcome_content_type(outcome),
        outcome_date(outcome),
    );
}

/// A directory whose index document is stored: asked for without the
/// closing slash, the answer is 301 with the directory's path as location.
pub proof fn law_directory_redirect(
    contents: Map<Seq<char>, AssetEntryView>,
    settings: Settings,
    request: RequestView,
    decoded: Seq<char>,
    dir: Seq<char>,
)
    requires
        method_allowed(request.method),
        request.path == seq!['/'] + dir,
        dir.len() > 0,
        dir.last() != '/',
        settings.index is Some,
        contents.contains_key(dir + seq!['/'] + settings.index->0),
    ensures
        served_with(contents, settings, request, decoded).status == 301,
        header_value(served_with(contents, settings, request, decoded).headers, "location"@) == Some(
            seq!['/'] + dir + seq!['/'],
        ),
{
    let path = seq!['/'] + dir;
    assert(strip_slash(path) =~= dir);
}

/// A directory whose index document is stored: asked for with the closing
/// slash, the answer is 200 with the index document, in the variant that the
/// client prefers, unless the request is conditional on that variant's tag.
pub proof fn law_directory_index(
    contents: Map<Seq<char>, AssetEntryView>,
    settings: Settings,
    request: RequestView,
    decoded: Seq<char>,
    dir: Seq<char>,
)
    requires
        method_allowed(request.method),
        request.path == seq!['/'] + dir + seq!['/'],
        settings.index is Some,
        contents.contains_key(dir + seq!['/'] + settings.index->0),
        !validator_matches(
            request.if_none_match,
            contents[dir + seq!['/'] + settings.index->0 + chosen_method(
                contents,
                dir + seq!['/'] + settings.index->0,
                accepted_methods(request.accept_encoding),
            ).spec_extension()],
        ),
    ensures
        served_with(contents, settings, request, decoded).status == 200,
        served_with(contents, settings, request, decoded).body == contents[dir + seq!['/'] + settings.index->0
            + chosen_method(
            contents,
            dir + seq!['/'] + settings.index->0,
            accepted_methods(request.accept_encoding),
        ).spec_extension()].data,
{
    let path = seq!['/'] + dir + seq!['/'];
    assert(strip_slash(path) =~= dir + seq!['/']);
}

/// A request that is conditional on the current entity tag of the entry it
/// resolves to, where that entry is no fallback, is answered with 304 and
/// an empty body.
pub proof fn law_conditional_request(
    contents: Map<Seq<char>, AssetEntryView>,
    settings: Settings,
    request: RequestView,
    decoded: Seq<char>,
)
    requires
        method_allowed(request.method),
        resolution(
            contents,
            settings,
            request.path,
            decoded,
            accepted_methods(request.accept_encoding),
        ) matches ResolutionView::Found { entry, is_fallback, .. } && !is_fallback
            && request.if_none_match == Some(hex_of(entry.hash)),
    ensures
        served_with(contents, settings, request, decoded).status == 304,
        served_with(contents, settings, request, decoded).body == Seq::<u8>::empty(),
        served_with(contents, settings, request, decoded).headers == Seq::<(Seq<char>, Seq<char>)>::empty(),
{
    let outcome = resolution(
        contents,
        settings,
        request.path,
        decoded,
        accepted_methods(request.accept_encoding),
    );
    match outcome {
        ResolutionView::Found { entry, .. } => {
            lemma_hex_has_no_quotes(entry.hash);
        },
        _ => {},
    }
}

/// With no fallback document set, and a behaviour other than `Okay`, a
/// request that nothing answers gets 404 with the built-in document.
pub proof fn law_default_document(
    contents: Map<Seq<char>, AssetEntryView>,
    settings: Settings,
    request: RequestView,
    decoded: Seq<char>,
)
    requires
        method_allowed(request.method),
        settings.fallback is None,
        settings.behavior != FallbackBehavior::Okay,
        misses(
            contents,
            settings.index,
            request.path,
            decoded,
            accepted_methods(request.accept_encoding),
        ),
    ensures
        served_with(contents, settings, request, decoded).status == 404,
        served_with(contents, settings, request, decoded).body == default_entry().data,
{
}

/// With the behaviour `Okay`, a request that nothing answers gets 200: with
/// the fallback document where one is set and stored, in the variant that
/// the client prefers, and with the built-in document otherwise.
pub proof fn law_fallback_okay(
    contents: Map<Seq<char>, AssetEntryView>,
    settings: Settings,
    request: RequestView,
    decoded: Seq<char>,
)
    requires
        method_allowed(request.method),
        settings.behavior == FallbackBehavior::Okay,
        misses(
            contents,
            settings.index,
            request.path,
            decoded,
            accepted_methods(request.accept_encoding),
        ),
    ensures
        served_with(contents, settings, request, decoded).status == 200,
        settings.fallback is Some && contents.contains_key(settings.fallback->0) ==> served_with(contents, settings, request, decoded).body == contents[settings.fallback->0 + chosen_method(
            contents,
            settings.fallback->0,
            accepted_methods(request.accept_encoding),
        ).spec_extension()].data,
        !(settings.fallback is Some && contents.contains_key(settings.fallback->0)) ==> served_with(contents, settings, request, decoded).body == default_entry().data,
{
}

/// With the behaviour `Redirect` and a fallback document set, a request
/// that nothing answers, for a path other than the fallback key, gets 307
/// with the fallback document's path as location.
pub proof fn law_fallback_redirect(
    contents: Map<Seq<char>, AssetEntryView>,
    settings: Settings,
    request: RequestView,
    decoded: Seq<char>,
)
    requires
        method_allowed(request.method),
        settings.behavior == FallbackBehavior::Redirect,
        settings.fallback is Some,
        settings.fallback->0 != request.path,
        misses(
            contents,
            settings.index,
            request.path,
            decoded,
            accepted_methods(request.accept_encoding),
        ),
    ensures
        served_with(contents, settings, request, decoded).status == 307,
        header_value(served_with(contents, settings, request, decoded).headers, "location"@) == Some(
            seq!['/'] + settings.fallback->0,
        ),
        served_with(contents, settings, request, decoded).body == encode_utf8("Temporary redirect"@),
{
}

/// Every response carries one of six status codes.
pub proof fn law_status_codes(
    contents: Map<Seq<char>, AssetEntryView>,
    settings: Settings,
    request: RequestView,
    decoded: Seq<char>,
)
    ensures
        ({
            let status = served_with(contents, settings, request, decoded).status;
            status == 200 || status == 301 || status == 304 || status == 307 || status == 404
                || status == 405
        }),
{
}

/// A compressed variant is served only for a key that is itself stored, and
/// what is served is what the bundle holds under the variant's name.
pub proof fn law_variant_needs_plain_entry(
    contents: Map<Seq<char>, AssetEntryView>,
    index: Option<Seq<char>>,
    path: Seq<char>,
    prefs: Seq<CompressionMethod>,
)
    requires
        resolved(contents, index, path, prefs) matches Some(ResolutionView::Found { .. }),
    ensures
        resolved(contents, index, path, prefs) matches Some(
            ResolutionView::Found { key, entry, method, is_fallback },
        ) && contents.contains_key(key) && contents.contains_key(key + method.spec_extension())
            && entry == contents[key + method.spec_extension()] && !is_fallback,
{
    let key = candidate_key(contents, index, path);
    lemma_chosen_is_stored(contents, key, prefs);
}

/// The rule that settles a request fixes the kind of its outcome: which
/// key is served or where the client is sent, and whether as a fallback.
pub proof fn law_rule_fixes_outcome(
    contents: Map<Seq<char>, AssetEntryView>,
    settings: Settings,
    path: Seq<char>,
    decoded: Seq<char>,
    prefs: Seq<CompressionMethod>,
)
    ensures
        ({
            let outcome = resolution(contents, settings, path, decoded, prefs);
            match deciding_rule(contents, settings, path, decoded, prefs) {
                Rule::Root | Rule::TrailingSlash | Rule::ExactLookup => Some(outcome) == variant_of(
                    contents,
                    candidate_key(contents, settings.index, path),
                    prefs,
                    false,
                ),
                Rule::NonTrailingWithIndexRedirect => outcome == (ResolutionView::Redirect {
                    target: seq!['/'] + strip_slash(path) + seq!['/'],
                    is_fallback: false,
                }),
                Rule::DecodedRetry => decoded != path && Some(outcome) == resolved(
                    contents,
                    settings.index,
                    decoded,
                    prefs,
                ),
                Rule::FallbackRedirect => settings.fallback is Some && outcome == (
                ResolutionView::Redirect {
                    target: seq!['/'] + settings.fallback->0,
                    is_fallback: true,
                }),
                Rule::FallbackDocument => settings.fallback is Some && Some(outcome) == variant_of(
                    contents,
                    settings.fallback->0,
                    prefs,
                    true,
                ),
                Rule::BuiltinDefault => outcome == (ResolutionView::Found {
                    key: default_key(),
                    entry: default_entry(),
                    method: CompressionMethod::Identity,
                    is_fallback: true,
                }),
            }
        }),
{
}

/// A method other than `GET` and `HEAD` gets 405, whatever the path and
/// whatever the bundle holds.
pub proof fn law_method_refused(
    contents: Map<Seq<char>, AssetEntryView>,
    settings: Settings,
    request: RequestView,
    decoded: Seq<char>,
)
    requires
        !method_allowed(request.method),
    ensures
        served_with(contents, settings, request, decoded) == method_not_allowed(),
        served_with(contents, settings, request, decoded).status == 405,
{
}

/// Where a request was answered with an entry that is no fallback, the
/// same request sent again with the entity tag of that answer as
/// `if-none-match` gets 304 with an empty body.
pub proof fn law_round_trip(
    contents: Map<Seq<char>, AssetEntryView>,
    settings: Settings,
    request: RequestView,
    again: RequestView,
    decoded: Seq<char>,
)
    requires
        method_allowed(request.method),
        resolution(
            contents,
            settings,
            request.path,
            decoded,
            accepted_methods(request.accept_encoding),
        ) matches ResolutionView::Found { is_fallback, .. } && !is_fallback,
        header_value(served_with(contents, settings, request, decoded).headers, "etag"@) is Some,
        again == (RequestView {
            if_none_match: header_value(served_with(contents, settings, request, decoded).headers, "etag"@),
            ..request
        }),
    ensures
        served_with(contents, settings, again, decoded).status == 304,
        served_with(contents, settings, again, decoded).body == Seq::<u8>::empty(),
{
    let outcome = resolution(
        contents,
        settings,
        request.path,
        decoded,
        accepted_methods(request.accept_encoding),
    );
    match outcome {
        ResolutionView::Found { entry, method, .. } => {
            if !validator_matches(request.if_none_match, entry) {
                lemma_found_etag(
                    entry,
                    method,
                    outcome_content_type(outcome),
                    outcome_date(outcome),
                );
                lemma_hex_has_no_quotes(entry.hash);
            }
        },
        _ => {},
    }
}

} // verus!
