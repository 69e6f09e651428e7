//! URLs as their serialised text, with the `url` crate doing the parsing and
//! the resolution of references.

use vstd::prelude::*;

verus! {

/// The serialisation of the URL that `url::Url::parse` makes of a text,
/// or `None` where the text is not an absolute URL.
pub uninterp spec fn url_parsed(s: Seq<char>) -> Option<Seq<char>>;

/// The serialisation of the URL that `url::Url::join` resolves from the URL
/// parsed out of `base` and the reference `input`, or `None` where either step fails.
pub uninterp spec fn url_joined(base: Seq<char>, input: Seq<char>) -> Option<Seq<char>>;

pub open spec fn opt_view(o: Option<String>) -> Option<Seq<char>> {
    match o {
        Some(s) => Some(s@),
        None => None,
    }
}

pub open spec fn https_prefix() -> Seq<char> {
    seq!['h', 't', 't', 'p', 's', ':', '/', '/']
}

pub open spec fn http_prefix() -> Seq<char> {
    seq!['h', 't', 't', 'p', ':', '/', '/']
}

/// Length of the `http://` or `https://` scheme prefix of `s`, or 0.
pub open spec fn scheme_prefix_len(s: Seq<char>) -> int {
    if s.len() >= 8 && s.take(8) == https_prefix() {
        8
    } else if s.len() >= 7 && s.take(7) == http_prefix() {
        7
    } else {
        0
    }
}

/// Index of the first `/` at or after `i`, or the length of `s`.
pub open spec fn slash_from(s: Seq<char>, i: int) -> int
    decreases s.len() - i,
{
    if i < 0 || i >= s.len() {
        s.len() as int
    } else if s[i] == '/' {
        i
    } else {
        slash_from(s, i + 1)
    }
}

/// For an `http` or `https` URL text whose path starts with `/`, the part
/// before that path: scheme, user information, host and port.
pub open spec fn http_origin(s: Seq<char>) -> Option<Seq<char>> {
    let k = scheme_prefix_len(s);
    let e = slash_from(s, k);
    if k > 0 && e < s.len() {
        Some(s.take(e))
    } else {
        None
    }
}

pub open spec fn plain_path_char(c: char) -> bool {
    ('a' <= c && c <= 'z') || ('A' <= c && c <= 'Z') || ('0' <= c && c <= '9') || c == '-'
        || c == '_' || c == '.' || c == '/'
}

/// An absolute path that URL resolution keeps as it is: it starts with one
/// `/`, holds only letters, digits, `-`, `_`, `.` and `/`, and no segment
/// is empty or starts with a dot.
pub open spec fn plain_absolute_path(p: Seq<char>) -> bool {
    &&& p.len() >= 1
    &&& p[0] == '/'
    &&& forall|i: int| 0 <= i < p.len() ==> plain_path_char(#[trigger] p[i])
    &&& forall|i: int| 0 <= i < p.len() - 1 && #[trigger] p[i] == '/' ==> p[i + 1] != '/' && p[i + 1] != '.'
}

/// Relies on `url::Url::parse`, and on `String::from` of the parsed URL for its
/// serialisation. The serialisation is a function of the text alone, and an
/// `http` or `https` serialisation parses to itself (the crate's own
/// `Url::check_invariants` holds every URL to that).
#[verifier::external_body]
pub(crate) fn parse_url(s: &str) -> (r: Option<String>)
    ensures
        opt_view(r) == url_parsed(s@),
        r matches Some(t) ==> (http_origin(t@) is Some ==> url_parsed(t@) == Some(t@)),
{
    url::Url::parse(s).ok().map(String::from)
}

/// Relies on `url::Url::parse` for the base and `url::Url::join` for the
/// resolution: for an `http` or `https` base, a reference that is a plain
/// absolute path replaces the base's path, query and fragment. As for
/// `parse_url`, an `http` or `https` result parses to itself.
#[verifier::external_body]
pub(crate) fn join_url(base: &str, input: &str) -> (r: Option<String>)
    ensures
        opt_view(r) == url_joined(base@, input@),
        r matches Some(t) ==> (http_origin(t@) is Some ==> url_parsed(t@) == Some(t@)),
        url_parsed(base@) is Some && http_origin(url_parsed(base@)->0) is Some
            && plain_absolute_path(input@) ==> opt_view(r) == Some(
            http_origin(url_parsed(base@)->0)->0 + input@,
        ),
{
    let base = url::Url::parse(base).ok()?;
    base.join(input).ok().map(String::from)
}

/// The scheme prefix length of an `http` or `https` URL text, as
/// `scheme_prefix_len` gives it.
fn scheme_len(s: &str) -> (r: usize)
    ensures
        r as int == scheme_prefix_len(s@),
{
    let n = s.unicode_len();
    if n >= 8 {
        let t = s.substring_char(0, 8);
        if text_eq(t, "https://") {
            proof {
                reveal_strlit("https://");
                assert(t@ == s@.take(8));
                assert("https://"@ =~= https_prefix());
            }
            return 8;
        }
        proof {
            reveal_strlit("https://");
            assert("https://"@ =~= https_prefix());
        }
    }
    if n >= 7 {
        let t = s.substring_char(0, 7);
        if text_eq(t, "http://") {
            proof {
                reveal_strlit("http://");
                assert("http://"@ =~= http_prefix());
            }
            return 7;
        }
        proof {
            reveal_strlit("http://");
            assert("http://"@ =~= http_prefix());
        }
    }
    0
}

/// Whether two texts are equal, character by character.
pub fn text_eq(a: &str, b: &str) -> (r: bool)
    ensures
        r == (a@ == b@),
{
    let n = a.unicode_len();
    if n != b.unicode_len() {
        return false;
    }
    let mut i: usize = 0;
    while i < n
        invariant
            n == a@.len(),
            n == b@.len(),
            i <= n,
            forall|j: int| 0 <= j < i ==> a@[j] == b@[j],
        decreases n - i,
    {
        if a.get_char(i) != b.get_char(i) {
            return false;
        }
        i = i + 1;
    }
    assert(a@ =~= b@);
    true
}

/// The part of an `http` or `https` URL text before its path.
pub fn origin_of(s: &str) -> (r: Option<String>)
    ensures
        opt_view(r) == http_origin(s@),
{
    let k = scheme_len(s);
    if k == 0 {
        return None;
    }
    let n = s.unicode_len();
    let mut i: usize = k;
    while i < n && s.get_char(i) != '/'
        invariant
            n == s@.len(),
            k <= i <= n,
            k == scheme_prefix_len(s@),
            k > 0,
            slash_from(s@, k as int) == slash_from(s@, i as int),
        decreases n - i,
    {
        i = i + 1;
    }
    if i == n {
        return None;
    }
    let o = s.substring_char(0, i);
    Some(o.to_string())
}

pub proof fn lemma_slash_from(s: Seq<char>, i: int, j: int)
    requires
        0 <= i <= j < s.len(),
        s[j] == '/',
        forall|k: int| i <= k < j ==> s[k] != '/',
    ensures
        slash_from(s, i) == j,
    decreases j - i,
{
    if i < j {
        lemma_slash_from(s, i + 1, j);
    }
}

/// An origin followed by an absolute path is again an `http` or `https` URL
/// text with that origin.
pub proof fn lemma_origin_of_joined(base: Seq<char>, path: Seq<char>)
    requires
        http_origin(base) is Some,
        path.len() >= 1,
        path[0] == '/',
    ensures
        http_origin(http_origin(base)->0 + path) == Some(http_origin(base)->0),
{
    let k = scheme_prefix_len(base);
    let e = slash_from(base, k);
    lemma_slash_from_bounds(base, k);
    let o = base.take(e);
    let t = o + path;
    assert forall|i: int| k <= i < e implies base[i] != '/' by {
        lemma_no_slash_before(base, k, i);
    }
    if k == 8 {
        assert(t.take(8) =~= base.take(8));
    } else {
        assert(t.take(7) =~= base.take(7));
        assert(t.len() < 8 || t.take(8) != https_prefix()) by {
            if t.len() >= 8 {
                assert(t.take(8)[4] == t.take(7)[4]);
            }
        }
    }
    assert(scheme_prefix_len(t) == k);
    lemma_slash_from(t, k, e);
    assert(t.take(e) =~= o);
}

proof fn lemma_slash_from_bounds(s: Seq<char>, i: int)
    requires
        0 <= i <= s.len(),
    ensures
        i <= slash_from(s, i) <= s.len(),
    decreases s.len() - i,
{
    if i < s.len() && s[i] != '/' {
        lemma_slash_from_bounds(s, i + 1);
    }
}

proof fn lemma_no_slash_before(s: Seq<char>, i: int, j: int)
    requires
        0 <= i <= j < slash_from(s, i),
    ensures
        s[j] != '/',
    decreases j - i,
{
    if i < j {
        lemma_no_slash_before(s, i + 1, j);
    }
}

} // verus!
