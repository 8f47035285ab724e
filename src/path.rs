//! Sanitizing of host-supplied relative paths and remote base URLs.
use vstd::prelude::*;

verus! {

/// The canonical path separator.
pub open spec fn is_separator(c: char) -> bool {
    c == '/'
}

/// `raw` with every backslash turned into the canonical separator.
pub open spec fn normalized(raw: Seq<char>) -> Seq<char> {
    raw.map_values(|c: char| if c == '\\' { '/' } else { c })
}

/// A parent-directory component `..` starts at index `i` of `p`.
pub open spec fn parent_component_at(p: Seq<char>, i: int) -> bool {
    &&& 0 <= i
    &&& i + 1 < p.len()
    &&& p[i] == '.'
    &&& p[i + 1] == '.'
    &&& (i == 0 || is_separator(p[i - 1]))
    &&& (i + 2 == p.len() || is_separator(p[i + 2]))
}

/// Some component of `p` is `..`.
pub open spec fn has_parent_component(p: Seq<char>) -> bool {
    exists|i: int| parent_component_at(p, i)
}

/// A raw path is accepted when its normalized form climbs to no parent.
pub open spec fn path_accepted(raw: Seq<char>) -> bool {
    !has_parent_component(normalized(raw))
}

/// A base URL without the one trailing separator it may end in.
pub open spec fn trimmed_base(url: Seq<char>) -> Seq<char> {
    if url.len() > 0 && url.last() == '/' {
        url.drop_last()
    } else {
        url
    }
}

/// Converts every backslash of `raw` into the canonical separator.
pub fn normalize_path(raw: &str) -> (r: String)
    ensures
        r@ == normalized(raw@),
{
    let n = raw.unicode_len();
    let mut out = String::new();
    let mut i: usize = 0;
    while i < n
        invariant
            n == raw@.len(),
            i <= n,
            out@ == normalized(raw@).subrange(0, i as int),
        decreases n - i,
    {
        proof {
            reveal_strlit("/");
        }
        let c = raw.get_char(i);
        if c == '\\' {
            out.append("/");
        } else {
            out.append(raw.substring_char(i, i + 1));
        }
        assert(out@ =~= normalized(raw@).subrange(0, i + 1));
        i = i + 1;
    }
    assert(out@ =~= normalized(raw@));
    out
}

/// Tells whether some component of `p` is `..`.
pub fn contains_parent_component(p: &str) -> (r: bool)
    ensures
        r == has_parent_component(p@),
{
    let n = p.unicode_len();
    let mut i: usize = 0;
    while i < n
        invariant
            n == p@.len(),
            i <= n,
            forall|j: int| 0 <= j < i ==> !parent_component_at(p@, j),
        decreases n - i,
    {
        if i + 1 < n && p.get_char(i) == '.' && p.get_char(i + 1) == '.' && (i == 0 || p.get_char(i - 1)
            == '/') && (i + 2 == n || p.get_char(i + 2) == '/') {
            assert(parent_component_at(p@, i as int));
            return true;
        }
        i = i + 1;
    }
    assert forall|j: int| !parent_component_at(p@, j) by {
    }
    false
}

/// Normalizes a host-supplied relative path, or rejects it with `None`
/// where it would climb out of the download directory.
pub fn sanitize_path(raw: &str) -> (r: Option<String>)
    ensures
        r is Some <==> path_accepted(raw@),
        r matches Some(p) ==> p@ == normalized(raw@),
{
    let p = normalize_path(raw);
    if contains_parent_component(p.as_str()) {
        None
    } else {
        Some(p)
    }
}

/// Drops the one trailing separator that a base URL may end in.
pub fn trim_base_url(url: &str) -> (r: String)
    ensures
        r@ == trimmed_base(url@),
{
    let n = url.unicode_len();
    if n > 0 && url.get_char(n - 1) == '/' {
        String::from_str(url.substring_char(0, n - 1))
    } else {
        String::from_str(url)
    }
}

} // verus!
