//! Small text operations on `&str`, specified over sequences of characters.

use vstd::prelude::*;
use vstd::string::*;

verus! {

/// `str`'s equality compares the two texts character by character.
pub assume_specification[ <str as PartialEq>::eq ](a: &str, b: &str) -> (r: bool)
    ensures
        r == (a@ == b@),
;

/// Whether two texts hold the same characters.
pub fn same_text(a: &str, b: &str) -> (r: bool)
    ensures
        r == (a@ == b@),
{
    a.eq(b)
}

/// A text prepared for reading by position. Whether the text is ASCII is
/// found out once; where it is, a character is read in constant time.
pub struct Scan<'a> {
    text: &'a str,
    ascii: bool,
    len: usize,
}

impl<'a> Scan<'a> {
    /// The prepared values fit the text.
    #[verifier::type_invariant]
    spec fn wf(&self) -> bool {
        &&& self.len == self.text@.len()
        &&& self.ascii ==> is_ascii(self.text)
    }

    /// The characters of the text.
    pub closed spec fn view(&self) -> Seq<char> {
        self.text@
    }

    /// Prepares `text` for reading.
    pub fn new(text: &'a str) -> (r: Scan<'a>)
        ensures
            r@ == text@,
    {
        let ascii = text.is_ascii();
        let len: usize = if ascii {
            proof {
                is_ascii_spec_bytes(text);
            }
            text.as_bytes().len()
        } else {
            text.unicode_len()
        };
        Scan { text, ascii, len }
    }

    /// The number of characters.
    pub fn len(&self) -> (r: usize)
        ensures
            r == self@.len(),
    {
        proof {
            use_type_invariant(self);
        }
        self.len
    }

    /// The character at position `i`.
    pub fn at(&self, i: usize) -> (c: char)
        requires
            i < self@.len(),
        ensures
            c == self@[i as int],
    {
        proof {
            use_type_invariant(self);
        }
        if self.ascii {
            let b: u8 = self.text.get_ascii(i);
            b as char
        } else {
            self.text.get_char(i)
        }
    }

    /// The characters from position `from` up to `to`, as a slice of the text.
    pub fn slice(&self, from: usize, to: usize) -> (r: &'a str)
        requires
            from <= to <= self@.len(),
        ensures
            r@ == self@.subrange(from as int, to as int),
    {
        proof {
            use_type_invariant(self);
        }
        if self.ascii {
            self.text.substring_ascii(from, to)
        } else {
            self.text.substring_char(from, to)
        }
    }

    /// The position of the first `c` at or after `from`, or the length of the text.
    pub fn find(&self, from: usize, c: char) -> (r: usize)
        requires
            from <= self@.len(),
        ensures
            from <= r <= self@.len(),
            r == from + first_index_of(self@.skip(from as int), c),
    {
        let n: usize = self.len();
        let mut k: usize = from;
        while k < n && self.at(k) != c
            invariant
                from <= k <= n,
                n == self@.len(),
                forall|i: int| from <= i < k ==> self@[i] != c,
            decreases n - k,
        {
            k += 1;
        }
        proof {
            let t = self@.skip(from as int);
            assert forall|i: int| 0 <= i < k - from implies t[i] != c by {
            }
            lemma_first_index_unique(t, c, k - from);
        }
        k
    }
}

/// The characters that carry the Unicode property `White_Space`.
pub open spec fn is_space(c: char) -> bool {
    let n = c as u32;
    ||| 0x09 <= n <= 0x0D
    ||| n == 0x20
    ||| n == 0x85
    ||| n == 0xA0
    ||| n == 0x1680
    ||| 0x2000 <= n <= 0x200A
    ||| n == 0x2028
    ||| n == 0x2029
    ||| n == 0x202F
    ||| n == 0x205F
    ||| n == 0x3000
}

/// `s` without its leading white space.
pub open spec fn trim_space_start(s: Seq<char>) -> Seq<char>
    decreases s.len(),
{
    if s.len() > 0 && is_space(s[0]) {
        trim_space_start(s.skip(1))
    } else {
        s
    }
}

/// `s` without its trailing white space.
pub open spec fn trim_space_end(s: Seq<char>) -> Seq<char>
    decreases s.len(),
{
    if s.len() > 0 && is_space(s.last()) {
        trim_space_end(s.drop_last())
    } else {
        s
    }
}

/// `s` without the white space around it.
pub open spec fn trim_space(s: Seq<char>) -> Seq<char> {
    trim_space_end(trim_space_start(s))
}

/// `s` without its leading double quotes.
pub open spec fn trim_quotes_start(s: Seq<char>) -> Seq<char>
    decreases s.len(),
{
    if s.len() > 0 && s[0] == '"' {
        trim_quotes_start(s.skip(1))
    } else {
        s
    }
}

/// `s` without its trailing double quotes.
pub open spec fn trim_quotes_end(s: Seq<char>) -> Seq<char>
    decreases s.len(),
{
    if s.len() > 0 && s.last() == '"' {
        trim_quotes_end(s.drop_last())
    } else {
        s
    }
}

/// `s` without the double quotes around it.
pub open spec fn trim_quotes(s: Seq<char>) -> Seq<char> {
    trim_quotes_end(trim_quotes_start(s))
}

/// The index of the first `c` in `s`, or the length of `s` where there is none.
pub open spec fn first_index_of(s: Seq<char>, c: char) -> int
    decreases s.len(),
{
    if s.len() == 0 || s[0] == c {
        0
    } else {
        1 + first_index_of(s.skip(1), c)
    }
}

/// `first_index_of(s, c)` lies within `s`, no `c` comes before it, and it
/// holds a `c` unless it is the length of `s`.
pub proof fn lemma_first_index_of(s: Seq<char>, c: char)
    ensures
        0 <= first_index_of(s, c) <= s.len(),
        forall|i: int| 0 <= i < first_index_of(s, c) ==> s[i] != c,
        first_index_of(s, c) < s.len() ==> s[first_index_of(s, c)] == c,
    decreases s.len(),
{
    if s.len() > 0 && s[0] != c {
        let t = s.skip(1);
        lemma_first_index_of(t, c);
        assert forall|i: int| 0 <= i < first_index_of(s, c) implies s[i] != c by {
            if i > 0 {
                assert(s[i] == t[i - 1]);
            }
        }
    }
}

/// Any index that holds the first `c` of `s` is `first_index_of(s, c)`.
pub proof fn lemma_first_index_unique(s: Seq<char>, c: char, k: int)
    requires
        0 <= k <= s.len(),
        forall|i: int| 0 <= i < k ==> s[i] != c,
        k < s.len() ==> s[k] == c,
    ensures
        first_index_of(s, c) == k,
{
    lemma_first_index_of(s, c);
}

/// The white-space trim of `s`, as a slice of it.
pub fn trim_ws(s: &str) -> (r: &str)
    ensures
        r@ == trim_space(s@),
{
    let scan = Scan::new(s);
    let n: usize = scan.len();
    let mut a: usize = 0;
    proof {
        assert(s@.skip(0) =~= s@);
    }
    while a < n && char_is_space(scan.at(a))
        invariant
            scan@ == s@,
            a <= n,
            n == s@.len(),
            trim_space_start(s@) == trim_space_start(s@.skip(a as int)),
        decreases n - a,
    {
        proof {
            assert(s@.skip(a as int).skip(1) =~= s@.skip(a as int + 1));
        }
        a += 1;
    }
    let mut b: usize = n;
    while b > a && char_is_space(scan.at(b - 1))
        invariant
            scan@ == s@,
            a <= b <= n,
            n == s@.len(),
            trim_space(s@) == trim_space_end(s@.subrange(a as int, b as int)),
        decreases b,
    {
        proof {
            let t = s@.subrange(a as int, b as int);
            assert(t.drop_last() =~= s@.subrange(a as int, b - 1));
        }
        b -= 1;
    }
    scan.slice(a, b)
}

/// `s` with the double quotes around it taken off, as a slice of it.
pub fn trim_dquotes(s: &str) -> (r: &str)
    ensures
        r@ == trim_quotes(s@),
{
    let scan = Scan::new(s);
    let n: usize = scan.len();
    let mut a: usize = 0;
    proof {
        assert(s@.skip(0) =~= s@);
    }
    while a < n && scan.at(a) == '"'
        invariant
            scan@ == s@,
            a <= n,
            n == s@.len(),
            trim_quotes_start(s@) == trim_quotes_start(s@.skip(a as int)),
        decreases n - a,
    {
        proof {
            assert(s@.skip(a as int).skip(1) =~= s@.skip(a as int + 1));
        }
        a += 1;
    }
    let mut b: usize = n;
    while b > a && scan.at(b - 1) == '"'
        invariant
            scan@ == s@,
            a <= b <= n,
            n == s@.len(),
            trim_quotes(s@) == trim_quotes_end(s@.subrange(a as int, b as int)),
        decreases b,
    {
        proof {
            let t = s@.subrange(a as int, b as int);
            assert(t.drop_last() =~= s@.subrange(a as int, b - 1));
        }
        b -= 1;
    }
    scan.slice(a, b)
}

/// Whether `c` is white space.
pub fn char_is_space(c: char) -> (r: bool)
    ensures
        r == is_space(c),
{
    let n: u32 = c as u32;
    (0x09 <= n && n <= 0x0D) || n == 0x20 || n == 0x85 || n == 0xA0 || n == 0x1680 || (0x2000 <= n
        && n <= 0x200A) || n == 0x2028 || n == 0x2029 || n == 0x202F || n == 0x205F || n == 0x3000
}

} // verus!
