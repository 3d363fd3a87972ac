//! Lookup order of the embedded web application's static files.
//!
//! The application's built files are embedded in, and served by, the
//! unverified shell. What is decided here is which stored paths a
//! requested path is tried against, and in what order: the path itself,
//! trailing slashes removed and the empty path standing for the index;
//! then the path as a page (`.html`); then the path as a directory
//! (`/index.html`); and finally the not-found page. Paths are handled as
//! bytes; the shell turns them back into names.

use vstd::prelude::*;

verus! {

use vstd::slice::slice_to_vec;

/// The byte `/`.
pub const SLASH: u8 = 47;

/// The bytes of `index.html`.
pub open spec fn spec_index_html() -> Seq<u8> {
    seq![105u8, 110u8, 100u8, 101u8, 120u8, 46u8, 104u8, 116u8, 109u8, 108u8]
}

/// The bytes of `.html`.
pub open spec fn spec_dot_html() -> Seq<u8> {
    seq![46u8, 104u8, 116u8, 109u8, 108u8]
}

/// The bytes of `/index.html`.
pub open spec fn spec_slash_index_html() -> Seq<u8> {
    seq![47u8].add(spec_index_html())
}

/// The bytes of `404.html`.
pub open spec fn spec_not_found_html() -> Seq<u8> {
    seq![52u8, 48u8, 52u8, 46u8, 104u8, 116u8, 109u8, 108u8]
}

/// The requested path with its trailing slashes removed.
pub open spec fn spec_trim_trailing_slashes(path: Seq<u8>) -> Seq<u8>
    decreases path.len(),
{
    if path.len() > 0 && path.last() == SLASH {
        spec_trim_trailing_slashes(path.drop_last())
    } else {
        path
    }
}

/// The stored path a request is primarily tried against: the trimmed
/// path, or the index when nothing of it remains.
pub open spec fn spec_app_base(path: Seq<u8>) -> Seq<u8> {
    if spec_trim_trailing_slashes(path).len() == 0 {
        spec_index_html()
    } else {
        spec_trim_trailing_slashes(path)
    }
}

/// The stored paths a request is tried against, in lookup order.
pub open spec fn spec_app_path_candidates(path: Seq<u8>) -> Seq<Seq<u8>> {
    seq![
        spec_app_base(path),
        spec_app_base(path).add(spec_dot_html()),
        spec_app_base(path).add(spec_slash_index_html()),
        spec_not_found_html(),
    ]
}

/// Removes trailing slashes from a requested path.
fn trim_trailing_slashes(path: &[u8]) -> (r: Vec<u8>)
    ensures
        r@ == spec_trim_trailing_slashes(path@),
{
    let mut n = path.len();
    proof {
        assert(path@.take(n as int) =~= path@);
    }
    while n > 0 && path[n - 1] == SLASH
        invariant
            0 <= n <= path@.len(),
            spec_trim_trailing_slashes(path@) == spec_trim_trailing_slashes(path@.take(n as int)),
        decreases n,
    {
        proof {
            assert(path@.take(n as int).last() == SLASH);
            assert(path@.take(n as int).drop_last() =~= path@.take(n - 1));
        }
        n = n - 1;
    }
    let prefix = slice_subrange_to_vec(path, n);
    proof {
        if n > 0 {
            assert(path@.take(n as int).last() != SLASH);
        }
        assert(spec_trim_trailing_slashes(path@.take(n as int)) == path@.take(n as int));
    }
    prefix
}

/// Copy of the first `n` bytes of a slice.
fn slice_subrange_to_vec(s: &[u8], n: usize) -> (r: Vec<u8>)
    requires
        n <= s@.len(),
    ensures
        r@ == s@.take(n as int),
{
    let mut r: Vec<u8> = Vec::new();
    let mut i: usize = 0;
    while i < n
        invariant
            0 <= i <= n <= s@.len(),
            r@ =~= s@.take(i as int),
        decreases n - i,
    {
        r.push(s[i]);
        proof {
            assert(r@ =~= s@.take(i + 1));
        }
        i = i + 1;
    }
    r
}

/// `base` followed by `suffix`.
fn append_bytes(base: &Vec<u8>, suffix: &[u8]) -> (r: Vec<u8>)
    ensures
        r@ == base@ + suffix@,
{
    let mut r = slice_to_vec(base.as_slice());
    let n = suffix.len();
    let mut i: usize = 0;
    while i < n
        invariant
            n == suffix@.len(),
            0 <= i <= n,
            r@ =~= base@ + suffix@.take(i as int),
        decreases n - i,
    {
        r.push(suffix[i]);
        proof {
            assert(r@ =~= base@ + suffix@.take(i + 1));
        }
        i = i + 1;
    }
    proof {
        assert(r@ =~= base@ + suffix@);
    }
    r
}

/// The bytes of `index.html`.
fn index_html_bytes() -> (r: Vec<u8>)
    ensures
        r@ == spec_index_html(),
{
    let mut v: Vec<u8> = Vec::new();
    v.push(105);
    v.push(110);
    v.push(100);
    v.push(101);
    v.push(120);
    v.push(46);
    v.push(104);
    v.push(116);
    v.push(109);
    v.push(108);
    proof {
        assert(v@ =~= spec_index_html());
    }
    v
}

/// The stored paths a requested path is tried against, in lookup order:
/// the trimmed path (or the index), the page form, the directory form,
/// and the not-found page.
pub fn app_path_candidates(path: &[u8]) -> (r: Vec<Vec<u8>>)
    ensures
        r@.map_values(|c: Vec<u8>| c@) == spec_app_path_candidates(path@),
{
    let trimmed = trim_trailing_slashes(path);
    let base = if trimmed.len() == 0 {
        index_html_bytes()
    } else {
        trimmed
    };

    let mut dot_html: Vec<u8> = Vec::new();
    dot_html.push(46);
    dot_html.push(104);
    dot_html.push(116);
    dot_html.push(109);
    dot_html.push(108);
    proof {
        assert(dot_html@ =~= spec_dot_html());
    }

    let mut slash_index: Vec<u8> = Vec::new();
    slash_index.push(47);
    let slash_index = append_bytes(&slash_index, index_html_bytes().as_slice());
    proof {
        assert(slash_index@ =~= spec_slash_index_html());
    }

    let mut not_found: Vec<u8> = Vec::new();
    not_found.push(52);
    not_found.push(48);
    not_found.push(52);
    not_found.push(46);
    not_found.push(104);
    not_found.push(116);
    not_found.push(109);
    not_found.push(108);
    proof {
        assert(not_found@ =~= spec_not_found_html());
    }

    let page = append_bytes(&base, dot_html.as_slice());
    let directory = append_bytes(&base, slash_index.as_slice());

    let mut r: Vec<Vec<u8>> = Vec::new();
    r.push(base);
    r.push(page);
    r.push(directory);
    r.push(not_found);
    proof {
        assert(r@.map_values(|c: Vec<u8>| c@) =~= spec_app_path_candidates(path@));
    }
    r
}

} // verus!
