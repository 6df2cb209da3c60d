use embed_serve::{
    default_document, hash_to_string, AssetEntry, FallbackBehavior, MemoryAssets, Request,
    Response, ServeEmbed,
};

const INDEX: &[u8] = b"<html><body>index</body></html>";
const SAMPLE_JS: &[u8] = b"console.log('sample');";
const SAMPLE_JS_BR: &[u8] = b"\x0b\x0a\x80brotli sample\x03";
const STYLE_CSS: &[u8] = b"body { margin: 0; }";
const STYLE_CSS_GZ: &[u8] = b"\x1f\x8b\x08gzip style";
const SUBDIR_INDEX: &[u8] = b"<html><body>subdir</body></html>";
const SUBDIR_INDEX_BR: &[u8] = b"\x0b\x0a\x80brotli subdir\x03";
const FOX: &[u8] = b"RIFF\x00\x00\x00\x00WEBPfox";
const CUSTOM_404: &[u8] = b"<html><body>custom not found</body></html>";

fn digest(seed: u8) -> [u8; 32] {
    let mut h = [0u8; 32];
    for (i, b) in h.iter_mut().enumerate() {
        *b = seed.wrapping_mul(31).wrapping_add(i as u8);
    }
    h
}

fn site() -> MemoryAssets {
    let mut assets = MemoryAssets::new();
    let files: [(&str, &[u8]); 9] = [
        ("index.html", INDEX),
        ("sample.js", SAMPLE_JS),
        ("sample.js.br", SAMPLE_JS_BR),
        ("style.css", STYLE_CSS),
        ("style.css.gz", STYLE_CSS_GZ),
        ("subdir/index.html", SUBDIR_INDEX),
        ("subdir/index.html.br", SUBDIR_INDEX_BR),
        ("images/fox/fox.webp", FOX),
        ("404.html", CUSTOM_404),
    ];
    for (i, (key, data)) in files.iter().enumerate() {
        assets.insert(key.to_string(), AssetEntry::new(data.to_vec(), digest(i as u8), None));
    }
    assets
}

fn get(uri: &str) -> Request {
    Request::new(
        "GET".to_string(),
        uri.to_string(),
        Some("br, gzip, deflate".to_string()),
        None,
    )
}

fn expect(
    serve: &ServeEmbed,
    uri: &str,
    status: u16,
    content_type: &str,
    encoding: Option<&str>,
    location: Option<&str>,
    body: &[u8],
) {
    let response: Response = serve.handle(&site(), get(uri));
    assert_eq!(response.status, status, "status of {}", uri);
    assert_eq!(response.header("content-type"), Some(content_type), "type of {}", uri);
    assert_eq!(response.header("content-encoding"), encoding, "encoding of {}", uri);
    assert_eq!(response.header("location"), location, "location of {}", uri);
    assert_eq!(&response.body[..], body, "body of {}", uri);
}

#[test]
fn test_default_index() {
    let serve = ServeEmbed::new();
    let builtin = default_document().as_bytes();
    expect(&serve, "/", 200, "text/html", None, None, INDEX);
    expect(&serve, "/index.html", 200, "text/html", None, None, INDEX);
    expect(&serve, "/sample.js", 200, "application/javascript", Some("br"), None, SAMPLE_JS_BR);
    expect(&serve, "/style.css", 200, "text/css", Some("gzip"), None, STYLE_CSS_GZ);
    expect(&serve, "/subdir/", 200, "text/html", Some("br"), None, SUBDIR_INDEX_BR);
    expect(&serve, "/subdir", 301, "text/plain", None, Some("/subdir/"), b"Moved permanently");
    expect(&serve, "/images/fox", 404, "text/html", None, None, builtin);
    expect(&serve, "/images/fox/fox.webp", 200, "image/webp", None, None, FOX);
    expect(&serve, "/images/fox/fox2.webp", 404, "text/html", None, None, builtin);
    expect(&serve, "/not-found", 404, "text/html", None, None, builtin);
}

#[test]
fn test_no_default_index() {
    let serve = ServeEmbed::with_parameters(None, FallbackBehavior::NotFound, None);
    let builtin = default_document().as_bytes();
    expect(&serve, "/", 404, "text/html", None, None, builtin);
    expect(&serve, "/index.html", 200, "text/html", None, None, INDEX);
    expect(&serve, "/sample.js", 200, "application/javascript", Some("br"), None, SAMPLE_JS_BR);
    expect(&serve, "/style.css", 200, "text/css", Some("gzip"), None, STYLE_CSS_GZ);
    expect(&serve, "/subdir/", 404, "text/html", None, None, builtin);
    expect(&serve, "/subdir", 404, "text/html", None, None, builtin);
    expect(&serve, "/images/fox", 404, "text/html", None, None, builtin);
    expect(&serve, "/images/fox/fox.webp", 200, "image/webp", None, None, FOX);
    expect(&serve, "/images/fox/fox2.webp", 404, "text/html", None, None, builtin);
    expect(&serve, "/not-found", 404, "text/html", None, None, builtin);
}

#[test]
fn test_fallback_ok() {
    let serve = ServeEmbed::with_parameters(
        Some("404.html".to_owned()),
        FallbackBehavior::Okay,
        Some("index.html".to_owned()),
    );
    expect(&serve, "/", 200, "text/html", None, None, INDEX);
    expect(&serve, "/index.html", 200, "text/html", None, None, INDEX);
    expect(&serve, "/sample.js", 200, "application/javascript", Some("br"), None, SAMPLE_JS_BR);
    expect(&serve, "/style.css", 200, "text/css", Some("gzip"), None, STYLE_CSS_GZ);
    expect(&serve, "/subdir/", 200, "text/html", Some("br"), None, SUBDIR_INDEX_BR);
    expect(&serve, "/subdir", 301, "text/plain", None, Some("/subdir/"), b"Moved permanently");
    expect(&serve, "/images/fox", 200, "text/html", None, None, CUSTOM_404);
    expect(&serve, "/images/fox/fox.webp", 200, "image/webp", None, None, FOX);
    expect(&serve, "/images/fox/fox2.webp", 200, "text/html", None, None, CUSTOM_404);
    expect(&serve, "/not-found", 200, "text/html", None, None, CUSTOM_404);
}

#[test]
fn test_redirect() {
    let serve = ServeEmbed::with_parameters(
        Some("404.html".to_owned()),
        FallbackBehavior::Redirect,
        Some("index.html".to_owned()),
    );
    expect(&serve, "/", 200, "text/html", None, None, INDEX);
    expect(&serve, "/index.html", 200, "text/html", None, None, INDEX);
    expect(&serve, "/sample.js", 200, "application/javascript", Some("br"), None, SAMPLE_JS_BR);
    expect(&serve, "/style.css", 200, "text/css", Some("gzip"), None, STYLE_CSS_GZ);
    expect(&serve, "/subdir/", 200, "text/html", Some("br"), None, SUBDIR_INDEX_BR);
    expect(&serve, "/subdir", 301, "text/plain", None, Some("/subdir/"), b"Moved permanently");
    expect(
        &serve,
        "/images/fox",
        307,
        "text/plain",
        None,
        Some("/404.html"),
        b"Temporary redirect",
    );
    expect(&serve, "/images/fox/fox.webp", 200, "image/webp", None, None, FOX);
    expect(
        &serve,
        "/images/fox/fox2.webp",
        307,
        "text/plain",
        None,
        Some("/404.html"),
        b"Temporary redirect",
    );
    expect(&serve, "/not-found", 307, "text/plain", None, Some("/404.html"), b"Temporary redirect");
}

#[test]
fn test_custom_404() {
    let serve = ServeEmbed::with_parameters(
        Some("404.html".to_owned()),
        FallbackBehavior::NotFound,
        Some("index.html".to_owned()),
    );
    expect(&serve, "/", 200, "text/html", None, None, INDEX);
    expect(&serve, "/index.html", 200, "text/html", None, None, INDEX);
    expect(&serve, "/sample.js", 200, "application/javascript", Some("br"), None, SAMPLE_JS_BR);
    expect(&serve, "/style.css", 200, "text/css", Some("gzip"), None, STYLE_CSS_GZ);
    expect(&serve, "/subdir/", 200, "text/html", Some("br"), None, SUBDIR_INDEX_BR);
    expect(&serve, "/subdir", 301, "text/plain", None, Some("/subdir/"), b"Moved permanently");
    expect(&serve, "/images/fox", 404, "text/html", None, None, CUSTOM_404);
    expect(&serve, "/images/fox/fox.webp", 200, "image/webp", None, None, FOX);
    expect(&serve, "/images/fox/fox2.webp", 404, "text/html", None, None, CUSTOM_404);
    expect(&serve, "/not-found", 404, "text/html", None, None, CUSTOM_404);
}

#[test]
fn plain_asset_is_served_whatever_the_client_accepts() {
    let serve = ServeEmbed::new();
    for accept in [None, Some(""), Some("br"), Some("gzip, deflate"), Some("identity"), Some("*")] {
        let request = Request::new(
            "GET".to_string(),
            "/images/fox/fox.webp".to_string(),
            accept.map(|s| s.to_string()),
            None,
        );
        let response = serve.handle(&site(), request);
        assert_eq!(response.status, 200);
        assert_eq!(response.header("etag"), Some(hash_to_string(&digest(7)).as_str()));
        assert_eq!(response.header("content-encoding"), None);
        assert_eq!(&response.body[..], FOX);
    }
}

#[test]
fn gzip_variant_is_served_where_no_brotli_variant_is_stored() {
    let response = ServeEmbed::new().handle(&site(), get("/style.css"));
    assert_eq!(response.status, 200);
    assert_eq!(response.header("content-encoding"), Some("gzip"));
    assert_eq!(response.header("etag"), Some(hash_to_string(&digest(4)).as_str()));
    assert_eq!(&response.body[..], STYLE_CSS_GZ);
}

#[test]
fn identity_listed_first_wins_over_a_stored_variant() {
    let request = Request::new(
        "GET".to_string(),
        "/sample.js".to_string(),
        Some("identity, br".to_string()),
        None,
    );
    let response = ServeEmbed::new().handle(&site(), request);
    assert_eq!(response.header("content-encoding"), None);
    assert_eq!(&response.body[..], SAMPLE_JS);
}

#[test]
fn headers_of_a_found_entry_come_in_order() {
    let mut assets = MemoryAssets::new();
    assets.insert("a.css".to_string(), AssetEntry::new(vec![1], digest(1), Some(784111777)));
    assets.insert("a.css.zz".to_string(), AssetEntry::new(vec![2, 3], digest(2), Some(0)));
    let request =
        Request::new("HEAD".to_string(), "/a.css".to_string(), Some("deflate".to_string()), None);
    let response = ServeEmbed::new().handle(&assets, request);
    assert_eq!(response.status, 200);
    let expected: Vec<(String, String)> = vec![
        ("content-type".to_string(), "text/css".to_string()),
        ("etag".to_string(), hash_to_string(&digest(2))),
        ("content-encoding".to_string(), "deflate".to_string()),
        ("last-modified".to_string(), "Thu, 01 Jan 1970 00:00:00 GMT".to_string()),
    ];
    assert_eq!(response.headers, expected);
    assert_eq!(response.body, vec![2, 3]);
}

#[test]
fn last_modified_is_an_rfc_1123_date() {
    let mut assets = MemoryAssets::new();
    assets.insert("a.txt".to_string(), AssetEntry::new(vec![1], digest(1), Some(784111777)));
    assets.insert("b.txt".to_string(), AssetEntry::new(vec![1], digest(1), None));
    assets.insert("c.txt".to_string(), AssetEntry::new(vec![1], digest(1), Some(u64::MAX)));
    let serve = ServeEmbed::new();
    let a = serve.handle(&assets, get("/a.txt"));
    assert_eq!(a.header("last-modified"), Some("Sun, 06 Nov 1994 08:49:37 GMT"));
    assert_eq!(a.header("content-type"), Some("text/plain"));
    let b = serve.handle(&assets, get("/b.txt"));
    assert_eq!(b.header("last-modified"), None);
    let c = serve.handle(&assets, get("/c.txt"));
    assert_eq!(c.status, 200);
    assert_eq!(c.header("last-modified"), None);
}

#[test]
fn unknown_extension_is_an_octet_stream() {
    let mut assets = MemoryAssets::new();
    assets.insert("blob.zzzz".to_string(), AssetEntry::new(vec![9], digest(1), None));
    assets.insert("noext".to_string(), AssetEntry::new(vec![8], digest(2), None));
    let serve = ServeEmbed::new();
    let r = serve.handle(&assets, get("/blob.zzzz"));
    assert_eq!(r.header("content-type"), Some("application/octet-stream"));
    let r = serve.handle(&assets, get("/noext"));
    assert_eq!(r.header("content-type"), Some("application/octet-stream"));
}

#[test]
fn percent_encoded_path_is_decoded_on_a_miss() {
    let mut assets = MemoryAssets::new();
    assets.insert("a b.txt".to_string(), AssetEntry::new(vec![7], digest(1), None));
    assets.insert("x%20y.txt".to_string(), AssetEntry::new(vec![6], digest(2), None));
    assets.insert("x y.txt".to_string(), AssetEntry::new(vec![5], digest(3), None));
    let serve = ServeEmbed::new();
    let r = serve.handle(&assets, get("/a%20b.txt"));
    assert_eq!(r.status, 200);
    assert_eq!(r.body, vec![7]);
    let r = serve.handle(&assets, get("/x%20y.txt"));
    assert_eq!(r.status, 200);
    assert_eq!(r.body, vec![6]);
    let r = serve.handle(&assets, get("/a%ffb.txt"));
    assert_eq!(r.status, 404);
}

#[test]
fn decoded_directory_is_redirected() {
    let mut assets = MemoryAssets::new();
    assets.insert("my dir/index.html".to_string(), AssetEntry::new(vec![7], digest(1), None));
    let r = ServeEmbed::new().handle(&assets, get("/my%20dir"));
    assert_eq!(r.status, 301);
    assert_eq!(r.header("location"), Some("/my dir/"));
}

#[test]
fn conditional_request_is_not_modified() {
    let serve = ServeEmbed::new();
    let tag = hash_to_string(&digest(7));
    for value in [tag.clone(), format!("\"{}\"", tag), format!("\"\"{}\"", tag)] {
        let request = Request::new(
            "GET".to_string(),
            "/images/fox/fox.webp".to_string(),
            None,
            Some(value),
        );
        let response = serve.handle(&site(), request);
        assert_eq!(response.status, 304);
        assert!(response.body.is_empty());
        assert!(response.headers.is_empty());
    }
    let request = Request::new(
        "GET".to_string(),
        "/images/fox/fox.webp".to_string(),
        None,
        Some(format!("W/\"{}\"", tag)),
    );
    assert_eq!(serve.handle(&site(), request).status, 200);
}

#[test]
fn conditional_request_goes_by_the_served_variant() {
    let serve = ServeEmbed::new();
    let plain = hash_to_string(&digest(3));
    let gz = hash_to_string(&digest(4));
    let mut request = get("/style.css");
    request.if_none_match = Some(plain);
    assert_eq!(serve.handle(&site(), request).status, 200);
    let mut request = get("/style.css");
    request.if_none_match = Some(gz);
    assert_eq!(serve.handle(&site(), request).status, 304);
}

#[test]
fn returned_tag_sent_back_is_not_modified() {
    let serve = ServeEmbed::new();
    for uri in ["/", "/index.html", "/sample.js", "/style.css", "/subdir/", "/images/fox/fox.webp"] {
        let first = serve.handle(&site(), get(uri));
        assert_eq!(first.status, 200);
        let tag = first.header("etag").map(|s| s.to_string());
        assert!(tag.is_some());
        let mut again = get(uri);
        again.if_none_match = tag;
        let second = serve.handle(&site(), again);
        assert_eq!(second.status, 304);
        assert!(second.body.is_empty());
    }
}

#[test]
fn fallback_document_is_never_not_modified() {
    let serve = ServeEmbed::with_parameters(
        Some("404.html".to_owned()),
        FallbackBehavior::NotFound,
        Some("index.html".to_owned()),
    );
    let first = serve.handle(&site(), get("/missing"));
    assert_eq!(first.status, 404);
    let mut again = get("/missing");
    again.if_none_match = first.header("etag").map(|s| s.to_string());
    let second = serve.handle(&site(), again);
    assert_eq!(second.status, 404);
    assert_eq!(&second.body[..], CUSTOM_404);
}

#[test]
fn other_methods_are_refused() {
    let serve = ServeEmbed::new();
    for method in ["POST", "PUT", "DELETE", "OPTIONS", "PATCH", "get", ""] {
        let request =
            Request::new(method.to_string(), "/index.html".to_string(), None, None);
        let response = serve.handle(&site(), request);
        assert_eq!(response.status, 405);
        assert_eq!(
            response.headers,
            vec![("content-type".to_string(), "text/plain".to_string())]
        );
        assert_eq!(&response.body[..], b"Method not allowed");
    }
    let request = Request::new("HEAD".to_string(), "/index.html".to_string(), None, None);
    let response = serve.handle(&MemoryAssets::new(), request);
    assert_eq!(response.status, 404);
}

#[test]
fn head_gets_the_body_too() {
    let request = Request::new("HEAD".to_string(), "/index.html".to_string(), None, None);
    let response = ServeEmbed::new().handle(&site(), request);
    assert_eq!(response.status, 200);
    assert_eq!(&response.body[..], INDEX);
}

#[test]
fn empty_bundle_serves_the_built_in_document() {
    let response = ServeEmbed::new().handle(&MemoryAssets::new(), get("/"));
    assert_eq!(response.status, 404);
    assert_eq!(response.header("content-type"), Some("text/html"));
    assert_eq!(
        response.header("etag"),
        Some("a668e77c96129f003b614569a6663093811f3b2a001f78638a1ca5af1f1315b4")
    );
    assert_eq!(response.header("content-encoding"), None);
    assert_eq!(response.header("last-modified"), None);
    assert_eq!(&response.body[..], default_document().as_bytes());
    assert!(default_document().starts_with("<!DOCTYPE html>"));
}

#[test]
fn built_in_document_is_served_as_found_under_okay() {
    let serve = ServeEmbed::with_parameters(None, FallbackBehavior::Okay, None);
    let response = serve.handle(&site(), get("/missing"));
    assert_eq!(response.status, 200);
    assert_eq!(&response.body[..], default_document().as_bytes());
}

#[test]
fn missing_fallback_document_gives_the_built_in_one() {
    let serve = ServeEmbed::with_parameters(
        Some("gone.html".to_owned()),
        FallbackBehavior::NotFound,
        None,
    );
    let response = serve.handle(&site(), get("/missing"));
    assert_eq!(response.status, 404);
    assert_eq!(&response.body[..], default_document().as_bytes());
}

#[test]
fn redirect_behaviour_serves_the_document_for_its_own_key() {
    let serve = ServeEmbed::with_parameters(
        Some("gone.html".to_owned()),
        FallbackBehavior::Redirect,
        None,
    );
    let response = serve.handle(&site(), get("gone.html"));
    assert_eq!(response.status, 404);
    assert_eq!(&response.body[..], default_document().as_bytes());
    let response = serve.handle(&site(), get("/gone.html"));
    assert_eq!(response.status, 307);
    assert_eq!(response.header("location"), Some("/gone.html"));
}

#[test]
fn fallback_document_is_negotiated_and_taken_verbatim() {
    let mut assets = MemoryAssets::new();
    assets.insert("errors/".to_string(), AssetEntry::new(vec![1], digest(1), None));
    assets.insert("errors/.gz".to_string(), AssetEntry::new(vec![2], digest(2), None));
    assets.insert("errors/index.html".to_string(), AssetEntry::new(vec![3], digest(3), None));
    let serve = ServeEmbed::with_parameters(
        Some("errors/".to_owned()),
        FallbackBehavior::NotFound,
        Some("index.html".to_owned()),
    );
    let response = serve.handle(&assets, get("/missing"));
    assert_eq!(response.status, 404);
    assert_eq!(response.header("content-encoding"), Some("gzip"));
    assert_eq!(response.body, vec![2]);
}

#[test]
fn only_one_leading_slash_is_taken_off() {
    let serve = ServeEmbed::new();
    assert_eq!(serve.handle(&site(), get("index.html")).status, 200);
    assert_eq!(serve.handle(&site(), get("/index.html")).status, 200);
    assert_eq!(serve.handle(&site(), get("//index.html")).status, 404);
}

#[test]
fn variant_without_the_plain_entry_is_not_served() {
    let mut assets = MemoryAssets::new();
    assets.insert("only.js.br".to_string(), AssetEntry::new(vec![1], digest(1), None));
    let response = ServeEmbed::new().handle(&assets, get("/only.js"));
    assert_eq!(response.status, 404);
    let response = ServeEmbed::new().handle(&assets, get("/only.js.br"));
    assert_eq!(response.status, 200);
    assert_eq!(response.header("content-encoding"), None);
}

#[test]
fn directory_without_its_index_document_misses() {
    let mut assets = MemoryAssets::new();
    assets.insert("docs/readme.txt".to_string(), AssetEntry::new(vec![1], digest(1), None));
    let serve = ServeEmbed::new();
    assert_eq!(serve.handle(&assets, get("/docs/")).status, 404);
    assert_eq!(serve.handle(&assets, get("/docs")).status, 404);
}

#[test]
fn later_insert_replaces_the_entry() {
    let mut assets = MemoryAssets::new();
    assets.insert("a.txt".to_string(), AssetEntry::new(vec![1], digest(1), None));
    assets.insert("a.txt".to_string(), AssetEntry::new(vec![2], digest(2), None));
    let response = ServeEmbed::new().handle(&assets, get("/a.txt"));
    assert_eq!(response.body, vec![2]);
    assert_eq!(response.header("etag"), Some(hash_to_string(&digest(2)).as_str()));
}

#[test]
fn redirect_behaviour_serves_the_stored_document_for_its_own_key() {
    let mut assets = MemoryAssets::new();
    assets.insert("/e.html".to_string(), AssetEntry::new(vec![1], digest(1), None));
    assets.insert("/e.html.br".to_string(), AssetEntry::new(vec![2], digest(2), None));
    let serve = ServeEmbed::with_parameters(
        Some("/e.html".to_owned()),
        FallbackBehavior::Redirect,
        Some("index.html".to_owned()),
    );
    let response = serve.handle(&assets, get("/e.html"));
    assert_eq!(response.status, 404);
    assert_eq!(response.header("content-type"), Some("text/html"));
    assert_eq!(response.header("content-encoding"), Some("br"));
    assert_eq!(response.body, vec![2]);
    let response = serve.handle(&assets, get("/other"));
    assert_eq!(response.status, 307);
    assert_eq!(response.header("location"), Some("//e.html"));
}
