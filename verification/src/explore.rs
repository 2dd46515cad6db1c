use vstd::prelude::*;
use crate::msg::{NodeFilter, NodeFilterApplicable, NodeFilterApplicableView};
use crate::node::{Node, NodeView};
use crate::text::chars_of;

verus! {

// ---------------------------------------------------------------------------
// Which nodes of a listing the active filters let through

/// The text of `str::to_lowercase` of `s`.
pub uninterp spec fn lowercased(s: Seq<char>) -> Seq<char>;

/// Calls `str::to_lowercase`; the text is named [`lowercased`].
#[verifier::external_body]
fn to_lowercase(s: &str) -> (r: String)
    ensures
        r@ == lowercased(s@),
{
    s.to_lowercase()
}

/// What `regex::Regex::new(pattern)` and then `is_match(text)` on the
/// compiled expression give: `None` when the pattern does not compile, else
/// whether the expression matches somewhere in `text`.
pub uninterp spec fn regex_outcome(pattern: Seq<char>, text: Seq<char>) -> Option<bool>;

/// Compiles `pattern` with `regex::Regex::new` and, when it compiles, tests
/// `text` with `Regex::is_match`; the answer is named [`regex_outcome`].
#[verifier::external_body]
fn regex_test(pattern: &str, text: &str) -> (r: Option<bool>)
    ensures
        r == regex_outcome(pattern@, text@),
{
    match regex::Regex::new(pattern) {
        Ok(re) => Some(re.is_match(text)),
        Err(_) => None,
    }
}

/// Whether `p` stands in `s` at `i`.
pub open spec fn text_at(s: Seq<char>, p: Seq<char>, i: int) -> bool {
    0 <= i && i + p.len() <= s.len() && s.subrange(i, i + p.len()) == p
}

/// Whether `s` starts with `p`.
pub open spec fn text_starts_with(s: Seq<char>, p: Seq<char>) -> bool {
    text_at(s, p, 0)
}

/// Whether `s` ends with `p`.
pub open spec fn text_ends_with(s: Seq<char>, p: Seq<char>) -> bool {
    text_at(s, p, s.len() - p.len())
}

/// Whether `p` stands somewhere in `s`.
pub open spec fn text_contains(s: Seq<char>, p: Seq<char>) -> bool {
    exists|i: int| #[trigger] text_at(s, p, i)
}

/// Whether the filter tests the absolute path (else the relative one).
pub open spec fn on_absolute_path(f: NodeFilter) -> bool {
    match f {
        NodeFilter::AbsolutePathIs | NodeFilter::IAbsolutePathIs | NodeFilter::AbsolutePathIsNot
        | NodeFilter::IAbsolutePathIsNot | NodeFilter::AbsolutePathDoesStartWith
        | NodeFilter::IAbsolutePathDoesStartWith | NodeFilter::AbsolutePathDoesNotStartWith
        | NodeFilter::IAbsolutePathDoesNotStartWith | NodeFilter::AbsolutePathDoesContain
        | NodeFilter::IAbsolutePathDoesContain | NodeFilter::AbsolutePathDoesNotContain
        | NodeFilter::IAbsolutePathDoesNotContain | NodeFilter::AbsolutePathDoesEndWith
        | NodeFilter::IAbsolutePathDoesEndWith | NodeFilter::AbsolutePathDoesNotEndWith
        | NodeFilter::IAbsolutePathDoesNotEndWith | NodeFilter::AbsolutePathDoesMatchRegex
        | NodeFilter::IAbsolutePathDoesMatchRegex | NodeFilter::AbsolutePathDoesNotMatchRegex
        | NodeFilter::IAbsolutePathDoesNotMatchRegex => true,
        _ => false,
    }
}

/// Whether the filter compares without regard to case (its name starts
/// with `I`).
pub open spec fn ignores_case(f: NodeFilter) -> bool {
    match f {
        NodeFilter::IRelativePathIs | NodeFilter::IRelativePathIsNot | NodeFilter::IRelativePathDoesStartWith
        | NodeFilter::IRelativePathDoesNotStartWith | NodeFilter::IRelativePathDoesContain
        | NodeFilter::IRelativePathDoesNotContain | NodeFilter::IRelativePathDoesEndWith
        | NodeFilter::IRelativePathDoesNotEndWith | NodeFilter::IRelativePathDoesMatchRegex
        | NodeFilter::IRelativePathDoesNotMatchRegex | NodeFilter::IAbsolutePathIs
        | NodeFilter::IAbsolutePathIsNot | NodeFilter::IAbsolutePathDoesStartWith
        | NodeFilter::IAbsolutePathDoesNotStartWith | NodeFilter::IAbsolutePathDoesContain
        | NodeFilter::IAbsolutePathDoesNotContain | NodeFilter::IAbsolutePathDoesEndWith
        | NodeFilter::IAbsolutePathDoesNotEndWith | NodeFilter::IAbsolutePathDoesMatchRegex
        | NodeFilter::IAbsolutePathDoesNotMatchRegex => true,
        _ => false,
    }
}

/// Whether the filter is one of the regular-expression filters.
pub open spec fn is_regex_filter(f: NodeFilter) -> bool {
    match f {
        NodeFilter::RelativePathDoesMatchRegex | NodeFilter::IRelativePathDoesMatchRegex
        | NodeFilter::RelativePathDoesNotMatchRegex | NodeFilter::IRelativePathDoesNotMatchRegex
        | NodeFilter::AbsolutePathDoesMatchRegex | NodeFilter::IAbsolutePathDoesMatchRegex
        | NodeFilter::AbsolutePathDoesNotMatchRegex | NodeFilter::IAbsolutePathDoesNotMatchRegex => true,
        _ => false,
    }
}

/// The test a filter makes of the text `s` against `p` (both already
/// lowercased when the filter ignores case). A regular-expression filter
/// lets a node through only when the pattern compiles and (for the negated
/// ones, does not) match.
pub open spec fn text_test(f: NodeFilter, s: Seq<char>, p: Seq<char>) -> bool {
    match f {
        NodeFilter::RelativePathIs | NodeFilter::IRelativePathIs | NodeFilter::AbsolutePathIs
        | NodeFilter::IAbsolutePathIs => s == p,
        NodeFilter::RelativePathIsNot | NodeFilter::IRelativePathIsNot | NodeFilter::AbsolutePathIsNot
        | NodeFilter::IAbsolutePathIsNot => s != p,
        NodeFilter::RelativePathDoesStartWith | NodeFilter::IRelativePathDoesStartWith
        | NodeFilter::AbsolutePathDoesStartWith | NodeFilter::IAbsolutePathDoesStartWith => text_starts_with(s, p),
        NodeFilter::RelativePathDoesNotStartWith | NodeFilter::IRelativePathDoesNotStartWith
        | NodeFilter::AbsolutePathDoesNotStartWith | NodeFilter::IAbsolutePathDoesNotStartWith => !text_starts_with(s, p),
        NodeFilter::RelativePathDoesContain | NodeFilter::IRelativePathDoesContain
        | NodeFilter::AbsolutePathDoesContain | NodeFilter::IAbsolutePathDoesContain => text_contains(s, p),
        NodeFilter::RelativePathDoesNotContain | NodeFilter::IRelativePathDoesNotContain
        | NodeFilter::AbsolutePathDoesNotContain | NodeFilter::IAbsolutePathDoesNotContain => !text_contains(s, p),
        NodeFilter::RelativePathDoesEndWith | NodeFilter::IRelativePathDoesEndWith
        | NodeFilter::AbsolutePathDoesEndWith | NodeFilter::IAbsolutePathDoesEndWith => text_ends_with(s, p),
        NodeFilter::RelativePathDoesNotEndWith | NodeFilter::IRelativePathDoesNotEndWith
        | NodeFilter::AbsolutePathDoesNotEndWith | NodeFilter::IAbsolutePathDoesNotEndWith => !text_ends_with(s, p),
        NodeFilter::RelativePathDoesMatchRegex | NodeFilter::IRelativePathDoesMatchRegex
        | NodeFilter::AbsolutePathDoesMatchRegex | NodeFilter::IAbsolutePathDoesMatchRegex =>
            regex_outcome(p, s) == Some(true),
        NodeFilter::RelativePathDoesNotMatchRegex | NodeFilter::IRelativePathDoesNotMatchRegex
        | NodeFilter::AbsolutePathDoesNotMatchRegex | NodeFilter::IAbsolutePathDoesNotMatchRegex =>
            regex_outcome(p, s) == Some(false),
    }
}

/// Whether the node passes the filter.
pub open spec fn passes(f: NodeFilterApplicableView, n: NodeView) -> bool {
    let s = if on_absolute_path(f.filter) { n.absolute_path } else { n.relative_path };
    if ignores_case(f.filter) {
        text_test(f.filter, lowercased(s), lowercased(f.input))
    } else {
        text_test(f.filter, s, f.input)
    }
}

/// Whether the node passes every filter of `fs`.
pub open spec fn passes_all(fs: Seq<NodeFilterApplicableView>, n: NodeView) -> bool {
    forall|i: int| 0 <= i < fs.len() ==> #[trigger] passes(fs[i], n)
}

/// The filters, taken by their views.
pub open spec fn filters_view(fs: Seq<NodeFilterApplicable>) -> Seq<NodeFilterApplicableView> {
    fs.map_values(|f: NodeFilterApplicable| f@)
}

/// The nodes, taken by their views.
pub open spec fn listing_view(ns: Seq<Node>) -> Seq<NodeView> {
    ns.map_values(|n: Node| n@)
}

/// Whether `p` stands in `s` at `i`.
fn chars_at(s: &Vec<char>, p: &Vec<char>, i: usize) -> (r: bool)
    requires
        i + p.len() <= s.len(),
    ensures
        r == text_at(s@, p@, i as int),
{
    let mut k: usize = 0;
    while k < p.len()
        invariant
            k <= p.len(),
            i + p.len() <= s.len(),
            forall|j: int| 0 <= j < k ==> s@[i + j] == p@[j],
        decreases p.len() - k,
    {
        if s[i + k] != p[k] {
            assert(s@.subrange(i as int, i + p.len())[k as int] != p@[k as int]);
            return false;
        }
        k = k + 1;
    }
    assert(s@.subrange(i as int, i + p.len()) =~= p@);
    true
}

/// Whether `p` stands somewhere in `s`.
fn chars_contain(s: &Vec<char>, p: &Vec<char>) -> (r: bool)
    ensures
        r == text_contains(s@, p@),
{
    if p.len() > s.len() {
        assert forall|i: int| !text_at(s@, p@, i) by {}
        return false;
    }
    if p.len() == 0 {
        assert(s@.subrange(0, 0) =~= p@);
        assert(text_at(s@, p@, 0));
        return true;
    }
    let last = s.len() - p.len();
    let mut i: usize = 0;
    while i <= last
        invariant
            last + p.len() == s.len(),
            p.len() >= 1,
            i <= last + 1,
            forall|j: int| 0 <= j < i ==> !text_at(s@, p@, j),
        decreases last + 1 - i,
    {
        if chars_at(s, p, i) {
            return true;
        }
        i = i + 1;
    }
    assert forall|j: int| !text_at(s@, p@, j) by {
        if 0 <= j < i {
        }
    }
    false
}

/// The test `filter` (not a regular-expression one) makes of `s` against `p`.
fn test_text(filter: NodeFilter, s: &Vec<char>, p: &Vec<char>) -> (r: bool)
    requires
        !is_regex_filter(filter),
    ensures
        r == text_test(filter, s@, p@),
{
    let fits = p.len() <= s.len();
    let same = s.len() == p.len() && chars_at(s, p, 0);
    proof {
        if s@ == p@ {
            assert(s@.subrange(0, p@.len() as int) =~= s@);
        }
        if s.len() == p.len() && text_at(s@, p@, 0) {
            assert(s@ =~= s@.subrange(0, p@.len() as int));
        }
    }
    let starts = fits && chars_at(s, p, 0);
    let ends = fits && chars_at(s, p, s.len() - p.len());
    match filter {
        NodeFilter::RelativePathIs | NodeFilter::IRelativePathIs | NodeFilter::AbsolutePathIs
        | NodeFilter::IAbsolutePathIs => same,
        NodeFilter::RelativePathIsNot | NodeFilter::IRelativePathIsNot | NodeFilter::AbsolutePathIsNot
        | NodeFilter::IAbsolutePathIsNot => !same,
        NodeFilter::RelativePathDoesStartWith | NodeFilter::IRelativePathDoesStartWith
        | NodeFilter::AbsolutePathDoesStartWith | NodeFilter::IAbsolutePathDoesStartWith => starts,
        NodeFilter::RelativePathDoesNotStartWith | NodeFilter::IRelativePathDoesNotStartWith
        | NodeFilter::AbsolutePathDoesNotStartWith | NodeFilter::IAbsolutePathDoesNotStartWith => !starts,
        NodeFilter::RelativePathDoesContain | NodeFilter::IRelativePathDoesContain
        | NodeFilter::AbsolutePathDoesContain | NodeFilter::IAbsolutePathDoesContain => chars_contain(s, p),
        NodeFilter::RelativePathDoesNotContain | NodeFilter::IRelativePathDoesNotContain
        | NodeFilter::AbsolutePathDoesNotContain | NodeFilter::IAbsolutePathDoesNotContain => !chars_contain(s, p),
        NodeFilter::RelativePathDoesEndWith | NodeFilter::IRelativePathDoesEndWith
        | NodeFilter::AbsolutePathDoesEndWith | NodeFilter::IAbsolutePathDoesEndWith => ends,
        NodeFilter::RelativePathDoesNotEndWith | NodeFilter::IRelativePathDoesNotEndWith
        | NodeFilter::AbsolutePathDoesNotEndWith | NodeFilter::IAbsolutePathDoesNotEndWith => !ends,
        _ => true,
    }
}

/// Whether the node passes the filter.
pub fn node_passes(f: &NodeFilterApplicable, n: &Node) -> (r: bool)
    ensures
        r == passes(f@, n@),
{
    let absolute = match f.filter {
        NodeFilter::AbsolutePathIs | NodeFilter::IAbsolutePathIs | NodeFilter::AbsolutePathIsNot
        | NodeFilter::IAbsolutePathIsNot | NodeFilter::AbsolutePathDoesStartWith
        | NodeFilter::IAbsolutePathDoesStartWith | NodeFilter::AbsolutePathDoesNotStartWith
        | NodeFilter::IAbsolutePathDoesNotStartWith | NodeFilter::AbsolutePathDoesContain
        | NodeFilter::IAbsolutePathDoesContain | NodeFilter::AbsolutePathDoesNotContain
        | NodeFilter::IAbsolutePathDoesNotContain | NodeFilter::AbsolutePathDoesEndWith
        | NodeFilter::IAbsolutePathDoesEndWith | NodeFilter::AbsolutePathDoesNotEndWith
        | NodeFilter::IAbsolutePathDoesNotEndWith | NodeFilter::AbsolutePathDoesMatchRegex
        | NodeFilter::IAbsolutePathDoesMatchRegex | NodeFilter::AbsolutePathDoesNotMatchRegex
        | NodeFilter::IAbsolutePathDoesNotMatchRegex => true,
        _ => false,
    };
    let lower = match f.filter {
        NodeFilter::IRelativePathIs | NodeFilter::IRelativePathIsNot | NodeFilter::IRelativePathDoesStartWith
        | NodeFilter::IRelativePathDoesNotStartWith | NodeFilter::IRelativePathDoesContain
        | NodeFilter::IRelativePathDoesNotContain | NodeFilter::IRelativePathDoesEndWith
        | NodeFilter::IRelativePathDoesNotEndWith | NodeFilter::IRelativePathDoesMatchRegex
        | NodeFilter::IRelativePathDoesNotMatchRegex | NodeFilter::IAbsolutePathIs
        | NodeFilter::IAbsolutePathIsNot | NodeFilter::IAbsolutePathDoesStartWith
        | NodeFilter::IAbsolutePathDoesNotStartWith | NodeFilter::IAbsolutePathDoesContain
        | NodeFilter::IAbsolutePathDoesNotContain | NodeFilter::IAbsolutePathDoesEndWith
        | NodeFilter::IAbsolutePathDoesNotEndWith | NodeFilter::IAbsolutePathDoesMatchRegex
        | NodeFilter::IAbsolutePathDoesNotMatchRegex => true,
        _ => false,
    };
    let regex = match f.filter {
        NodeFilter::RelativePathDoesMatchRegex | NodeFilter::IRelativePathDoesMatchRegex
        | NodeFilter::RelativePathDoesNotMatchRegex | NodeFilter::IRelativePathDoesNotMatchRegex
        | NodeFilter::AbsolutePathDoesMatchRegex | NodeFilter::IAbsolutePathDoesMatchRegex
        | NodeFilter::AbsolutePathDoesNotMatchRegex | NodeFilter::IAbsolutePathDoesNotMatchRegex => true,
        _ => false,
    };
    let wanted = match f.filter {
        NodeFilter::RelativePathDoesMatchRegex | NodeFilter::IRelativePathDoesMatchRegex
        | NodeFilter::AbsolutePathDoesMatchRegex | NodeFilter::IAbsolutePathDoesMatchRegex => true,
        _ => false,
    };
    let subject: &str = if absolute { n.absolute_path.as_str() } else { n.relative_path.as_str() };
    let (s, p) = if lower {
        (to_lowercase(subject), to_lowercase(f.input.as_str()))
    } else {
        (String::from_str(subject), f.input.clone())
    };
    if regex {
        match regex_test(p.as_str(), s.as_str()) {
            Some(m) => m == wanted,
            None => false,
        }
    } else {
        test_text(f.filter, &chars_of(s.as_str()), &chars_of(p.as_str()))
    }
}

/// Whether the node passes every filter of `filters`.
pub fn node_passes_all(filters: &Vec<NodeFilterApplicable>, n: &Node) -> (r: bool)
    ensures
        r == passes_all(filters_view(filters@), n@),
{
    let mut i: usize = 0;
    while i < filters.len()
        invariant
            i <= filters.len(),
            forall|j: int| 0 <= j < i ==> #[trigger] passes(filters@[j]@, n@),
        decreases filters.len() - i,
    {
        if !node_passes(&filters[i], n) {
            assert(filters_view(filters@)[i as int] == filters@[i as int]@);
            return false;
        }
        i = i + 1;
    }
    assert forall|j: int| 0 <= j < filters_view(filters@).len() implies #[trigger] passes(filters_view(filters@)[j], n@) by {
        assert(filters_view(filters@)[j] == filters@[j]@);
    }
    true
}

/// The nodes of a listing that pass every filter, in their order.
pub fn shown_nodes(nodes: &Vec<Node>, filters: &Vec<NodeFilterApplicable>) -> (r: Vec<Node>)
    ensures
        listing_view(r@) == listing_view(nodes@).filter(|n: NodeView| passes_all(filters_view(filters@), n)),
{
    let ghost keep = |n: NodeView| passes_all(filters_view(filters@), n);
    let mut r: Vec<Node> = Vec::new();
    let mut i: usize = 0;
    while i < nodes.len()
        invariant
            i <= nodes.len(),
            keep == (|n: NodeView| passes_all(filters_view(filters@), n)),
            listing_view(r@) == listing_view(nodes@).take(i as int).filter(keep),
        decreases nodes.len() - i,
    {
        let ghost before = r@;
        assert(listing_view(nodes@).take(i + 1) =~= listing_view(nodes@).take(i as int).push(nodes@[i as int]@));
        proof {
            listing_view(nodes@).take(i as int).lemma_filter_push(nodes@[i as int]@, keep);
        }
        if node_passes_all(filters, &nodes[i]) {
            r.push(nodes[i].copy());
            assert(listing_view(r@) =~= listing_view(before).push(nodes@[i as int]@));
        } else {
            assert(r@ == before);
        }
        i = i + 1;
    }
    assert(listing_view(nodes@).take(nodes.len() as int) =~= listing_view(nodes@));
    r
}

} // verus!
