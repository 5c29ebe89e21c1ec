//! Pure helpers of icon fetching: file-name sanitizing and the fallback
//! favicon URL.  Fetching, decoding and saving images happen outside the
//! library.

use vstd::prelude::*;

verus! {

/// One character of a sanitized file name: the characters that file
/// systems refuse become underscores.
pub open spec fn sanitize_char(c: char) -> char {
    if c == '/' || c == '\\' || c == ':' || c == '*' || c == '?' || c == '"' || c == '<' || c == '>'
        || c == '|' {
        '_'
    } else {
        c
    }
}

/// The sanitized form of a file name.
pub open spec fn sanitize_filename_spec(s: Seq<char>) -> Seq<char> {
    s.map_values(|c: char| sanitize_char(c))
}

/// Replace the characters that file systems refuse with underscores.
pub fn sanitize_filename(name: &str) -> (r: String)
    ensures
        r@ == sanitize_filename_spec(name@),
{
    let n = name.unicode_len();
    let mut out = String::new();
    let mut i: usize = 0;
    while i < n
        invariant
            n == name@.len(),
            i <= n,
            out@ == sanitize_filename_spec(name@).take(i as int),
        decreases n - i,
    {
        let c = name.get_char(i);
        let sc: char = if c == '/' || c == '\\' || c == ':' || c == '*' || c == '?' || c == '"'
            || c == '<' || c == '>' || c == '|' {
            '_'
        } else {
            c
        };
        out.push(sc);
        proof {
            assert(out@ =~= sanitize_filename_spec(name@).take(i as int + 1));
        }
        i = i + 1;
    }
    proof {
        assert(sanitize_filename_spec(name@).take(n as int) =~= sanitize_filename_spec(name@));
    }
    out
}

/// The fallback favicon URL of a site, from its scheme and host.
pub open spec fn default_favicon_url_spec(scheme: Seq<char>, host: Seq<char>) -> Seq<char> {
    scheme + "://"@ + host + "/favicon.ico"@
}

/// The conventional `/favicon.ico` URL of a site, used when a page names
/// no icon of its own.
pub fn default_favicon_url(scheme: &str, host: &str) -> (r: String)
    ensures
        r@ == default_favicon_url_spec(scheme@, host@),
{
    let mut out = scheme.to_owned();
    out.append("://");
    out.append(host);
    out.append("/favicon.ico");
    out
}

} // verus!
