//! Canonical file URLs.
//!
//! A registry key is a canonical file URL: the `file://` scheme followed by
//! an absolute, already symlink- and segment-normalized filesystem path.
//! Only plainly representable paths convert — absolute ones made of
//! characters that need no percent escaping.  Anything else is rejected, and
//! the caller falls back to ignoring the script or forcing a full restart,
//! both of which are safe outcomes for a path that cannot be a swap target.

use vstd::prelude::*;
use vstd::string::StrSliceExecFns;

verus! {

/// Characters that may stand unescaped in the path of a canonical file URL:
/// ASCII letters and digits, and `/`, `.`, `-`, `_`, `~`.
pub open spec fn is_url_path_char(c: char) -> bool {
    ||| (97 <= c as int && c as int <= 122)  // 'a' ..= 'z'
    ||| (65 <= c as int && c as int <= 90)  // 'A' ..= 'Z'
    ||| (48 <= c as int && c as int <= 57)  // '0' ..= '9'
    ||| c == '/'
    ||| c == '.'
    ||| c == '-'
    ||| c == '_'
    ||| c == '~'
}

/// A canonical absolute path: non-empty, rooted, and made of characters a
/// canonical file URL can hold verbatim.
pub open spec fn is_canonical_path(p: Seq<char>) -> bool {
    &&& p.len() > 0
    &&& p[0] == '/'
    &&& forall|i: int| 0 <= i < p.len() ==> is_url_path_char(#[trigger] p[i])
}

/// The scheme prefix every canonical file URL starts with.
pub open spec fn spec_file_scheme() -> Seq<char> {
    seq!['f', 'i', 'l', 'e', ':', '/', '/']
}

/// The canonical file URL of a canonical absolute path.
pub open spec fn spec_url_of_path(p: Seq<char>) -> Seq<char> {
    spec_file_scheme() + p
}

/// The path a canonical file URL denotes, or nothing when the string is not
/// a canonical file URL.
pub open spec fn spec_path_of_url(u: Seq<char>) -> Option<Seq<char>> {
    if u.len() > 7 && u.subrange(0, 7) == spec_file_scheme() && is_canonical_path(u.skip(7)) {
        Option::Some(u.skip(7))
    } else {
        Option::None
    }
}

fn is_url_path_char_exec(c: char) -> (r: bool)
    ensures
        r == is_url_path_char(c),
{
    let u = c as u32;
    (97 <= u && u <= 122) || (65 <= u && u <= 90) || (48 <= u && u <= 57) || c == '/' || c == '.'
        || c == '-' || c == '_' || c == '~'
}

/// Converts an absolute filesystem path to its canonical file URL, or
/// reports that the path has no such URL.
pub fn url_from_file_path(path: &String) -> (r: Option<String>)
    ensures
        match r {
            Option::Some(u) => is_canonical_path(path@) && u@ == spec_url_of_path(path@),
            Option::None => !is_canonical_path(path@),
        },
{
    let s = path.as_str();
    let n = s.unicode_len();
    if n == 0 || s.get_char(0) != '/' {
        return Option::None;
    }
    let mut i: usize = 0;
    while i < n
        invariant
            i <= n,
            n == path@.len(),
            s@ == path@,
            forall|j: int| 0 <= j < i ==> is_url_path_char(#[trigger] path@[j]),
        decreases n - i,
    {
        if !is_url_path_char_exec(s.get_char(i)) {
            return Option::None;
        }
        i += 1;
    }
    let mut url = String::from_str("file://");
    url.append(s);
    proof {
        reveal_strlit("file://");
        assert("file://"@ =~= spec_file_scheme());
        assert(url@ =~= spec_url_of_path(path@));
    }
    Option::Some(url)
}

/// Converts a canonical file URL back to the absolute filesystem path it
/// denotes, or reports that the string is no canonical file URL (a foreign
/// scheme, a relative reference, or characters the canonical form excludes).
pub fn url_to_file_path(url: &String) -> (r: Option<String>)
    ensures
        match r {
            Option::Some(p) => spec_path_of_url(url@) == Option::Some(p@),
            Option::None => spec_path_of_url(url@) is None,
        },
{
    let s = url.as_str();
    let n = s.unicode_len();
    if n <= 7 {
        return Option::None;
    }
    if s.get_char(0) != 'f' || s.get_char(1) != 'i' || s.get_char(2) != 'l' || s.get_char(3) != 'e'
        || s.get_char(4) != ':' || s.get_char(5) != '/' || s.get_char(6) != '/' {
        proof {
            assert(url@.subrange(0, 7) != spec_file_scheme()) by {
                if url@.subrange(0, 7) == spec_file_scheme() {
                    assert(forall|k: int|
                        0 <= k < 7 ==> url@[k] == #[trigger] spec_file_scheme()[k]);
                }
            }
        }
        return Option::None;
    }
    if s.get_char(7) != '/' {
        assert(url@.skip(7)[0] != '/');
        return Option::None;
    }
    let mut i: usize = 7;
    while i < n
        invariant
            7 <= i <= n,
            n == url@.len(),
            s@ == url@,
            forall|j: int| 7 <= j < i ==> is_url_path_char(#[trigger] url@[j]),
        decreases n - i,
    {
        if !is_url_path_char_exec(s.get_char(i)) {
            assert(url@.skip(7)[i - 7] == url@[i as int]);
            return Option::None;
        }
        i += 1;
    }
    let rest = s.substring_char(7, n);
    let path = rest.to_owned();
    proof {
        assert(url@.subrange(0, 7) =~= spec_file_scheme());
        assert(path@ =~= url@.skip(7));
        assert(forall|j: int|
            0 <= j < url@.skip(7).len() ==> #[trigger] url@.skip(7)[j] == url@[j + 7]);
        assert(is_canonical_path(url@.skip(7)));
    }
    Option::Some(path)
}

/// Law: a canonical path converted to its file URL and back round-trips —
/// the string used as a registry key denotes exactly the path it came from.
pub proof fn lemma_url_path_round_trip(p: Seq<char>)
    requires
        is_canonical_path(p),
    ensures
        spec_path_of_url(spec_url_of_path(p)) == Option::Some(p),
{
    let u = spec_url_of_path(p);
    assert(u.subrange(0, 7) =~= spec_file_scheme());
    assert(u.skip(7) =~= p);
}

/// Law: the other direction of the round trip — a string recognized as a
/// canonical file URL is exactly the URL of the path it denotes.
pub proof fn lemma_path_url_round_trip(u: Seq<char>)
    requires
        spec_path_of_url(u) is Some,
    ensures
        spec_url_of_path(spec_path_of_url(u).unwrap()) == u,
{
    assert(spec_file_scheme() + u.skip(7) =~= u);
}

} // verus!
