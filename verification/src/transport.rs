//! The randomized-path upload transport's client-side logic.
//!
//! This transport posts the raw file bytes to a bin-style host at a
//! path of two random alphanumeric tokens, fourteen characters each,
//! and uses the constructed URL as the imported file's address. The
//! tokens are drawn by the embedding application (the randomness need
//! not be cryptographically secure); this module validates them and
//! builds the URL, so that its shape — and that distinct tokens give
//! distinct URLs — is proved rather than hoped for.

use vstd::prelude::*;
use vstd::string::StringExecFns;
use vstd::string::StrSliceExecFns;

verus! {

/// How many characters each random path token has.
pub const TOKEN_LEN: usize = 14;

/// Whether a character is an ASCII letter or digit.
pub open spec fn is_alnum(c: char) -> bool {
    let x = c as u32;
    (48 <= x && x <= 57) || (65 <= x && x <= 90) || (97 <= x && x <= 122)
}

/// Whether a string is a valid path token: exactly [`TOKEN_LEN`]
/// characters, all of them ASCII letters or digits.
pub open spec fn is_token(s: Seq<char>) -> bool {
    s.len() == TOKEN_LEN && forall|i: int| 0 <= i < s.len() ==> is_alnum(s[i])
}

/// Checks a character for being an ASCII letter or digit.
pub fn alnum(c: char) -> (b: bool)
    ensures
        b == is_alnum(c),
{
    let x = c as u32;
    (48 <= x && x <= 57) || (65 <= x && x <= 90) || (97 <= x && x <= 122)
}

/// Checks a string for being a valid path token.
pub fn token_ok(s: &str) -> (b: bool)
    ensures
        b == is_token(s@),
{
    let n = s.unicode_len();
    if n != TOKEN_LEN {
        return false;
    }
    let mut i: usize = 0;
    while i < n
        invariant
            n == s@.len(),
            n == TOKEN_LEN,
            i <= n,
            forall|j: int| 0 <= j < i ==> is_alnum(s@[j]),
        decreases n - i,
    {
        if !alnum(s.get_char(i)) {
            return false;
        }
        i = i + 1;
    }
    true
}

/// The URL a randomized-path upload is addressed to: the host, then
/// the two tokens, separated by slashes.
pub open spec fn bin_url_of(host: Seq<char>, t1: Seq<char>, t2: Seq<char>) -> Seq<char> {
    host + "/"@ + t1 + "/"@ + t2
}

/// Builds the randomized-path upload URL. The URL is constructed
/// client-side before the host has confirmed anything: acceptance is
/// decided later, by the response's status code alone.
pub fn bin_path_url(host: &str, t1: &str, t2: &str) -> (r: String)
    requires
        is_token(t1@),
        is_token(t2@),
    ensures
        r@ == bin_url_of(host@, t1@, t2@),
{
    let mut s: String = host.to_owned();
    s.append("/");
    s.append(t1);
    s.append("/");
    s.append(t2);
    s
}

/// A token never contains a path separator: every character of it is
/// alphanumeric, and `'/'` is not.
pub proof fn lemma_token_has_no_separator(t: Seq<char>)
    requires
        is_token(t),
    ensures
        forall|i: int| 0 <= i < t.len() ==> t[i] != '/',
{
    assert forall|i: int| 0 <= i < t.len() implies t[i] != '/' by {
        assert(is_alnum(t[i]));
    }
}

/// The shape of a randomized-path upload URL: after the host come
/// exactly two path segments of [`TOKEN_LEN`] alphanumeric characters
/// each, the separators standing exactly at the segment borders.
pub proof fn lemma_bin_url_shape(host: Seq<char>, t1: Seq<char>, t2: Seq<char>)
    requires
        is_token(t1),
        is_token(t2),
    ensures
        bin_url_of(host, t1, t2).len() == host.len() + 2 * TOKEN_LEN + 2,
        bin_url_of(host, t1, t2)[host.len() as int] == '/',
        bin_url_of(host, t1, t2)[host.len() + TOKEN_LEN + 1] == '/',
        bin_url_of(host, t1, t2).subrange(host.len() as int + 1, host.len() as int + TOKEN_LEN + 1) == t1,
        bin_url_of(host, t1, t2).subrange(
            host.len() as int + TOKEN_LEN + 2,
            host.len() as int + 2 * TOKEN_LEN + 2,
        ) == t2,
        forall|i: int|
            host.len() < i < host.len() + TOKEN_LEN + 1 ==> is_alnum(bin_url_of(host, t1, t2)[i]),
        forall|i: int|
            host.len() + TOKEN_LEN + 1 < i < bin_url_of(host, t1, t2).len() ==> is_alnum(
                bin_url_of(host, t1, t2)[i],
            ),
{
    reveal_strlit("/");
    let u = bin_url_of(host, t1, t2);
    assert(u.subrange(host.len() as int + 1, host.len() as int + TOKEN_LEN + 1) =~= t1);
    assert(u.subrange(host.len() as int + TOKEN_LEN + 2, host.len() as int + 2 * TOKEN_LEN + 2) =~= t2);
    assert forall|i: int| host.len() < i < host.len() + TOKEN_LEN + 1 implies is_alnum(u[i]) by {
        assert(u[i] == t1[i - (host.len() + 1)]);
    }
    assert forall|i: int| host.len() + TOKEN_LEN + 1 < i < u.len() implies is_alnum(u[i]) by {
        assert(u[i] == t2[i - (host.len() + TOKEN_LEN + 2)]);
    }
}

/// Distinct token pairs give distinct URLs on the same host: two
/// invocations of the randomized-path transport that draw different
/// tokens never address the same path.
pub proof fn lemma_distinct_tokens_distinct_urls(
    host: Seq<char>,
    t1: Seq<char>,
    t2: Seq<char>,
    u1: Seq<char>,
    u2: Seq<char>,
)
    requires
        is_token(t1),
        is_token(t2),
        is_token(u1),
        is_token(u2),
        t1 != u1 || t2 != u2,
    ensures
        bin_url_of(host, t1, t2) != bin_url_of(host, u1, u2),
{
    lemma_bin_url_shape(host, t1, t2);
    lemma_bin_url_shape(host, u1, u2);
    if bin_url_of(host, t1, t2) == bin_url_of(host, u1, u2) {
        assert(t1 == u1);
        assert(t2 == u2);
    }
}

} // verus!
