use std::str::FromStr;
use vstd::prelude::*;
use vstd::utf8::{encode_utf8, is_char_boundary};

verus! {

/// What a request needs of a base address: its scheme and the server it names.
#[derive(Debug, PartialEq, Eq)]
pub struct BaseUri {
    pub scheme: Option<String>,
    pub authority: Option<String>,
}

/// The characters of a text that may be missing.
pub open spec fn text_view(text: Option<String>) -> Option<Seq<char>> {
    match text {
        Some(s) => Some(s@),
        None => None,
    }
}

impl View for BaseUri {
    type V = (Option<Seq<char>>, Option<Seq<char>>);

    open spec fn view(&self) -> (Option<Seq<char>>, Option<Seq<char>>) {
        (text_view(self.scheme), text_view(self.authority))
    }
}

/// Whether the three bytes at `at` are `://`.
pub open spec fn is_scheme_mark(bytes: Seq<u8>, at: int) -> bool {
    &&& 0 <= at
    &&& at + 3 <= bytes.len()
    &&& bytes[at] == 58u8
    &&& bytes[at + 1] == 47u8
    &&& bytes[at + 2] == 47u8
}

/// Whether a text has the form of an absolute URI: it does not begin with a slash
/// and holds `://` somewhere.
pub open spec fn is_absolute_form(bytes: Seq<u8>) -> bool {
    &&& bytes.len() > 0
    &&& bytes[0] != 47u8
    &&& exists|at: int| is_scheme_mark(bytes, at)
}

/// Where the first colon at or after `from` stands, and the length where none does.
pub open spec fn first_colon_from(bytes: Seq<u8>, from: int) -> int
    decreases bytes.len() - from,
{
    if from < 0 || from >= bytes.len() {
        bytes.len() as int
    } else if bytes[from] == 58u8 {
        from
    } else {
        first_colon_from(bytes, from + 1)
    }
}

/// Whether the authority of `url` can be cut out of it. In an absolute URI the
/// authority is taken to begin three bytes behind the first colon, and that must be
/// where a character begins. It is, unless a colon stands before the `://` with a
/// character of several bytes close behind it.
pub open spec fn cuts_cleanly(url: Seq<char>) -> bool {
    let bytes = encode_utf8(url);
    is_absolute_form(bytes) ==> is_char_boundary(bytes, first_colon_from(bytes, 0) + 3)
}

/// The scheme and the authority of `url` where it is a URI, each where it has one.
pub uninterp spec fn uri_parts(url: Seq<char>) -> Option<(Option<Seq<char>>, Option<Seq<char>>)>;

/// Parses `url` with `hyper::Uri::from_str` and reads `Uri::scheme` and
/// `Uri::authority` off the result. What comes out depends on the text alone and is
/// named by [`uri_parts`]; where hyper reports an error, nothing comes out. For a
/// text of the absolute form `Uri::authority` slices the text three bytes behind the
/// first colon, which must be a character's first byte.
#[verifier::external_body]
fn parse_uri(url: &str) -> (r: Option<BaseUri>)
    requires
        cuts_cleanly(url@),
    ensures
        match r {
            Some(base) => uri_parts(url@) == Some(base@),
            None => uri_parts(url@) is None,
        },
{
    let uri = hyper::Uri::from_str(url).ok()?;
    Some(BaseUri {
        scheme: uri.scheme().map(String::from),
        authority: uri.authority().map(String::from),
    })
}

// Whether `://` stands somewhere in `bytes`.
fn has_scheme_mark(bytes: &[u8]) -> (r: bool)
    ensures
        r == exists|at: int| is_scheme_mark(bytes@, at),
{
    let mut i: usize = 0;
    while i < bytes.len() && bytes.len() - i >= 3
        invariant
            i <= bytes.len(),
            forall|at: int| 0 <= at < i ==> !is_scheme_mark(bytes@, at),
        decreases bytes.len() - i,
    {
        if bytes[i] == 58 && bytes[i + 1] == 47 && bytes[i + 2] == 47 {
            assert(is_scheme_mark(bytes@, i as int));
            return true;
        }
        i = i + 1;
    }
    false
}

// Where the first colon stands in `bytes`.
fn first_colon(bytes: &[u8]) -> (r: usize)
    ensures
        r == first_colon_from(bytes@, 0),
        r <= bytes.len(),
{
    let mut i: usize = 0;
    while i < bytes.len() && bytes[i] != 58
        invariant
            i <= bytes.len(),
            first_colon_from(bytes@, 0) == first_colon_from(bytes@, i as int),
        decreases bytes.len() - i,
    {
        i = i + 1;
    }
    i
}

// The first colon stands no later than any `://`.
proof fn lemma_first_colon_before_mark(bytes: Seq<u8>, from: int, at: int)
    requires
        0 <= from <= at,
        is_scheme_mark(bytes, at),
    ensures
        from <= first_colon_from(bytes, from) <= at,
    decreases at - from,
{
    if from < at && bytes[from] != 58u8 {
        lemma_first_colon_before_mark(bytes, from + 1, at);
    }
}

impl BaseUri {
    /// Whether the authority of `url` can be cut out of it.
    pub fn cuts_cleanly(url: &str) -> (r: bool)
        ensures
            r == cuts_cleanly(url@),
    {
        let bytes = url.as_bytes();
        if bytes.len() == 0 || bytes[0] == 47 || !has_scheme_mark(bytes) {
            return true;
        }
        let colon = first_colon(bytes);
        proof {
            let at = choose|at: int| is_scheme_mark(bytes@, at);
            lemma_first_colon_before_mark(bytes@, 0, at);
        }
        url.is_char_boundary(colon + 3)
    }

    /// Reads a base address: its scheme and its authority, each where it has one. An
    /// address is refused where it is no URI, and where its authority cannot be cut
    /// out of it.
    pub fn parse(url: &str) -> (r: Option<BaseUri>)
        ensures
            match r {
                Some(base) => cuts_cleanly(url@) && uri_parts(url@) == Some(base@),
                None => !cuts_cleanly(url@) || uri_parts(url@) is None,
            },
    {
        if !BaseUri::cuts_cleanly(url) {
            return None;
        }
        parse_uri(url)
    }
}

} // verus!
