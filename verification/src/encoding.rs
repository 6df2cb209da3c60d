//! Content codings: the precompressed variants of an asset and the reading
//! of a client's `accept-encoding` value.

use vstd::prelude::*;
use vstd::string::*;
use vstd::seq_lib::lemma_seq_contains_after_push;
use crate::text::{
    first_index_of, lemma_first_index_of, same_text, trim_space, trim_ws, Scan,
};

verus! {

/// A way in which the stored bytes of an asset may be compressed.
#[derive(Debug, Clone, Copy, PartialEq, Eq, Structural, Hash)]
pub enum CompressionMethod {
    Identity,
    Brotli,
    Gzip,
    Zlib,
}

impl CompressionMethod {
    /// The suffix under which the variant of a key is stored.
    pub open spec fn spec_extension(self) -> Seq<char> {
        match self {
            CompressionMethod::Identity => Seq::empty(),
            CompressionMethod::Brotli => seq!['.', 'b', 'r'],
            CompressionMethod::Gzip => seq!['.', 'g', 'z'],
            CompressionMethod::Zlib => seq!['.', 'z', 'z'],
        }
    }

    /// The token that names the coding in `content-encoding`; none for identity.
    pub open spec fn spec_content_encoding(self) -> Option<Seq<char>> {
        match self {
            CompressionMethod::Identity => None,
            CompressionMethod::Brotli => Some(seq!['b', 'r']),
            CompressionMethod::Gzip => Some(seq!['g', 'z', 'i', 'p']),
            CompressionMethod::Zlib => Some(seq!['d', 'e', 'f', 'l', 'a', 't', 'e']),
        }
    }

    /// The suffix under which the variant of a key is stored.
    pub fn extension(self) -> (r: &'static str)
        ensures
            r@ == self.spec_extension(),
    {
        proof {
            reveal_strlit("");
            reveal_strlit(".br");
            reveal_strlit(".gz");
            reveal_strlit(".zz");
        }
        match self {
            CompressionMethod::Identity => {
                ""
            },
            CompressionMethod::Brotli => {
                ".br"
            },
            CompressionMethod::Gzip => {
                ".gz"
            },
            CompressionMethod::Zlib => {
                ".zz"
            },
        }
    }

    /// The token that names the coding in `content-encoding`; none for identity.
    pub fn content_encoding(self) -> (r: Option<&'static str>)
        ensures
            r is Some == self.spec_content_encoding() is Some,
            r matches Some(t) ==> self.spec_content_encoding() == Some(t@),
    {
        proof {
            reveal_strlit("br");
            reveal_strlit("gzip");
            reveal_strlit("deflate");
        }
        match self {
            CompressionMethod::Identity => None,
            CompressionMethod::Brotli => {
                Some("br")
            },
            CompressionMethod::Gzip => {
                Some("gzip")
            },
            CompressionMethod::Zlib => {
                Some("deflate")
            },
        }
    }
}

/// The coding that one comma-separated item of the header names: the item
/// is trimmed, cut at its first `;`, and must then be one of the four tokens.
pub open spec fn token_method(item: Seq<char>) -> Option<CompressionMethod> {
    let t = trim_space(item);
    let name = t.subrange(0, first_index_of(t, ';'));
    if name == seq!['b', 'r'] {
        Some(CompressionMethod::Brotli)
    } else if name == seq!['g', 'z', 'i', 'p'] {
        Some(CompressionMethod::Gzip)
    } else if name == seq!['d', 'e', 'f', 'l', 'a', 't', 'e'] {
        Some(CompressionMethod::Zlib)
    } else if name == seq!['i', 'd', 'e', 'n', 't', 'i', 't', 'y'] {
        Some(CompressionMethod::Identity)
    } else {
        None
    }
}

/// The codings that the header lists, in its order; items that name none are left out.
pub open spec fn listed_methods(s: Seq<char>) -> Seq<CompressionMethod>
    decreases s.len(),
{
    let k = first_index_of(s, ',');
    let head = match token_method(s.subrange(0, k)) {
        Some(m) => seq![m],
        None => Seq::empty(),
    };
    if 0 <= k < s.len() {
        head + listed_methods(s.skip(k + 1))
    } else {
        head
    }
}

/// The codings to try for a client, most preferred first: those that the
/// header lists, closed by identity unless the header names it itself.
pub open spec fn accepted_methods(header: Option<Seq<char>>) -> Seq<CompressionMethod> {
    let listed = listed_methods(
        match header {
            Some(s) => s,
            None => Seq::empty(),
        },
    );
    if listed.contains(CompressionMethod::Identity) {
        listed
    } else {
        listed.push(CompressionMethod::Identity)
    }
}

/// Whatever the header holds, identity is among the codings to try.
pub proof fn lemma_accepted_has_identity(header: Option<Seq<char>>)
    ensures
        accepted_methods(header).contains(CompressionMethod::Identity),
{
    let listed = listed_methods(
        match header {
            Some(s) => s,
            None => Seq::empty(),
        },
    );
    if !listed.contains(CompressionMethod::Identity) {
        let r = listed.push(CompressionMethod::Identity);
        assert(r[listed.len() as int] == CompressionMethod::Identity);
    }
}

/// Reads one item of the header.
pub fn method_of_token(item: &str) -> (r: Option<CompressionMethod>)
    ensures
        r == token_method(item@),
{
    let t = Scan::new(trim_ws(item));
    let k = t.find(0, ';');
    proof {
        assert(t@.skip(0) =~= t@);
        reveal_strlit("br");
        reveal_strlit("gzip");
        reveal_strlit("deflate");
        reveal_strlit("identity");
        assert("br"@ =~= seq!['b', 'r']);
        assert("gzip"@ =~= seq!['g', 'z', 'i', 'p']);
        assert("deflate"@ =~= seq!['d', 'e', 'f', 'l', 'a', 't', 'e']);
        assert("identity"@ =~= seq!['i', 'd', 'e', 'n', 't', 'i', 't', 'y']);
    }
    let name = t.slice(0, k);
    if same_text(name, "br") {
        Some(CompressionMethod::Brotli)
    } else if same_text(name, "gzip") {
        Some(CompressionMethod::Gzip)
    } else if same_text(name, "deflate") {
        Some(CompressionMethod::Zlib)
    } else if same_text(name, "identity") {
        Some(CompressionMethod::Identity)
    } else {
        None
    }
}

/// The codings to try for a client that sent `acceptable_encoding`.
pub fn from_acceptable_encoding(acceptable_encoding: Option<&str>) -> (r: Vec<CompressionMethod>)
    ensures
        r@ == accepted_methods(
            match acceptable_encoding {
                Some(s) => Some(s@),
                None => None,
            },
        ),
        r@.contains(CompressionMethod::Identity),
{
    proof {
        reveal_strlit("");
        assert(""@ =~= Seq::<char>::empty());
    }
    let s: &str = match acceptable_encoding {
        Some(s) => s,
        None => "",
    };
    let scan = Scan::new(s);
    let n: usize = scan.len();
    let mut methods: Vec<CompressionMethod> = Vec::new();
    let mut identity_found = false;
    let mut pos: usize = 0;
    let mut done = false;
    proof {
        assert(s@.skip(0) =~= s@);
    }
    while !done
        invariant
            scan@ == s@,
            pos <= n,
            n == s@.len(),
            !done ==> listed_methods(s@) == methods@ + listed_methods(s@.skip(pos as int)),
            done ==> listed_methods(s@) == methods@,
            identity_found == methods@.contains(CompressionMethod::Identity),
        decreases n - pos + (if done { 0int } else { 1int }),
    {
        let k = scan.find(pos, ',');
        let item = scan.slice(pos, k);
        let found = method_of_token(item);
        let ghost before = methods@;
        let ghost rest = s@.skip(pos as int);
        proof {
            lemma_first_index_of(rest, ',');
            assert(item@ =~= rest.subrange(0, k - pos));
            if k < n {
                assert(rest.skip(k - pos + 1) =~= s@.skip(k + 1));
            }
        }
        match found {
            Some(m) => {
                methods.push(m);
                if m == CompressionMethod::Identity {
                    identity_found = true;
                }
                proof {
                    lemma_seq_contains_after_push(before, m, CompressionMethod::Identity);
                    if k < n {
                        assert(before + (seq![m] + listed_methods(s@.skip(k + 1))) =~= methods@
                            + listed_methods(s@.skip(k + 1)));
                    }
                }
            },
            None => {
                proof {
                    if k < n {
                        assert(Seq::<CompressionMethod>::empty() + listed_methods(s@.skip(k + 1))
                            =~= listed_methods(s@.skip(k + 1)));
                    }
                }
            },
        }
        if k < n {
            pos = k + 1;
        } else {
            done = true;
        }
    }
    if !identity_found {
        methods.push(CompressionMethod::Identity);
    }
    proof {
        lemma_accepted_has_identity(
            match acceptable_encoding {
                Some(s) => Some(s@),
                None => None,
            },
        );
    }
    methods
}

} // verus!
