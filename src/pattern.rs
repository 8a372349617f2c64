use vstd::prelude::*;

verus! {

/// One position of a byte pattern.
#[derive(Clone, Copy, Debug, PartialEq, Eq, Structural)]
pub enum ByteMatcher {
    /// Accepts only this byte.
    Exact(u8),
    /// Accepts any byte.
    Wildcard,
}

/// Whether `m` accepts the byte `b`.
pub open spec fn accepts(m: ByteMatcher, b: u8) -> bool {
    match m {
        ByteMatcher::Exact(x) => x == b,
        ByteMatcher::Wildcard => true,
    }
}

/// The window of `buf` starting at `i` lies inside `buf` and every matcher of `p`
/// accepts the byte under it.
pub open spec fn window_matches(p: Seq<ByteMatcher>, buf: Seq<u8>, i: int) -> bool {
    &&& 0 <= i
    &&& i + p.len() <= buf.len()
    &&& forall|j: int| 0 <= j < p.len() ==> #[trigger] accepts(p[j], buf[i + j])
}

/// Some window of `buf` satisfies `p`.
pub open spec fn has_match(p: Seq<ByteMatcher>, buf: Seq<u8>) -> bool {
    exists|i: int| window_matches(p, buf, i)
}

/// `i` is the lowest offset at which `p` matches `buf`.
pub open spec fn is_first_match(p: Seq<ByteMatcher>, buf: Seq<u8>, i: int) -> bool {
    &&& window_matches(p, buf, i)
    &&& forall|k: int| 0 <= k < i ==> !window_matches(p, buf, k)
}

/// The lowest offset at which `p` matches `buf`; meaningful where `has_match(p, buf)`.
pub open spec fn first_match(p: Seq<ByteMatcher>, buf: Seq<u8>) -> int {
    choose|i: int| is_first_match(p, buf, i)
}

/// A pattern has at most one lowest match, and where it has a match that is the one.
pub proof fn lemma_first_match_unique(p: Seq<ByteMatcher>, buf: Seq<u8>, i: int)
    requires
        is_first_match(p, buf, i),
    ensures
        has_match(p, buf),
        first_match(p, buf) == i,
{
    let j = first_match(p, buf);
    assert(is_first_match(p, buf, j));
    if j < i {
        assert(!window_matches(p, buf, j));
    }
    if i < j {
        assert(!window_matches(p, buf, i));
    }
}

/// The signature whose match, 14 bytes in, holds a pointer to the table of
/// per-save-slot data: `3D ???????? 0F 87 ???????? FF 24 85 ???????? A1`.
pub open spec fn slot_table_pattern() -> Seq<ByteMatcher> {
    seq![
        ByteMatcher::Exact(0x3D),
        ByteMatcher::Wildcard,
        ByteMatcher::Wildcard,
        ByteMatcher::Wildcard,
        ByteMatcher::Wildcard,
        ByteMatcher::Exact(0x0F),
        ByteMatcher::Exact(0x87),
        ByteMatcher::Wildcard,
        ByteMatcher::Wildcard,
        ByteMatcher::Wildcard,
        ByteMatcher::Wildcard,
        ByteMatcher::Exact(0xFF),
        ByteMatcher::Exact(0x24),
        ByteMatcher::Exact(0x85),
        ByteMatcher::Wildcard,
        ByteMatcher::Wildcard,
        ByteMatcher::Wildcard,
        ByteMatcher::Wildcard,
        ByteMatcher::Exact(0xA1),
    ]
}

/// The signature whose match, 7 bytes in, holds the address of the zone tag:
/// `69 F8 ?? ?? ?? ?? B8 ?? ?? ?? ??`.
pub open spec fn zone_tag_pattern() -> Seq<ByteMatcher> {
    seq![
        ByteMatcher::Exact(0x69),
        ByteMatcher::Exact(0xF8),
        ByteMatcher::Wildcard,
        ByteMatcher::Wildcard,
        ByteMatcher::Wildcard,
        ByteMatcher::Wildcard,
        ByteMatcher::Exact(0xB8),
        ByteMatcher::Wildcard,
        ByteMatcher::Wildcard,
        ByteMatcher::Wildcard,
        ByteMatcher::Wildcard,
    ]
}

/// A wildcard accepts every byte; an exact matcher accepts its own byte and no other.
pub proof fn lemma_matcher_acceptance(x: u8, b: u8)
    ensures
        accepts(ByteMatcher::Wildcard, b),
        accepts(ByteMatcher::Exact(x), b) <==> b == x,
{
}

impl ByteMatcher {
    /// Whether this matcher accepts `b`.
    pub fn accepts(&self, b: u8) -> (r: bool)
        ensures
            r == accepts(*self, b),
    {
        match self {
            ByteMatcher::Exact(x) => *x == b,
            ByteMatcher::Wildcard => true,
        }
    }
}

/// Builds the signature of the per-save-slot data table.
pub fn slot_table_signature() -> (r: Vec<ByteMatcher>)
    ensures
        r@ == slot_table_pattern(),
{
    let w = ByteMatcher::Wildcard;
    let r = vec![
        ByteMatcher::Exact(0x3D), w, w, w, w,
        ByteMatcher::Exact(0x0F), ByteMatcher::Exact(0x87), w, w, w, w,
        ByteMatcher::Exact(0xFF), ByteMatcher::Exact(0x24), ByteMatcher::Exact(0x85), w, w, w, w,
        ByteMatcher::Exact(0xA1),
    ];
    assert(r@ =~= slot_table_pattern());
    r
}

/// Builds the signature of the zone tag's address.
pub fn zone_tag_signature() -> (r: Vec<ByteMatcher>)
    ensures
        r@ == zone_tag_pattern(),
{
    let w = ByteMatcher::Wildcard;
    let r = vec![
        ByteMatcher::Exact(0x69), ByteMatcher::Exact(0xF8), w, w, w, w,
        ByteMatcher::Exact(0xB8), w, w, w, w,
    ];
    assert(r@ =~= zone_tag_pattern());
    r
}

/// Whether `pattern` matches `buf` at `offset`; false where the window runs past
/// the end of `buf`.
pub fn matches_at(pattern: &[ByteMatcher], buf: &[u8], offset: usize) -> (r: bool)
    ensures
        r == window_matches(pattern@, buf@, offset as int),
{
    if offset > buf.len() || pattern.len() > buf.len() - offset {
        return false;
    }
    let mut j: usize = 0;
    while j < pattern.len()
        invariant
            offset + pattern@.len() <= buf@.len(),
            buf@.len() <= usize::MAX,
            j <= pattern@.len(),
            forall|k: int| 0 <= k < j ==> #[trigger] accepts(pattern@[k], buf@[offset + k]),
        decreases pattern@.len() - j,
    {
        if !pattern[j].accepts(buf[offset + j]) {
            return false;
        }
        j += 1;
    }
    true
}

/// The lowest offset at which `pattern` matches `buf`, or `None` where it matches nowhere.
pub fn scan(pattern: &[ByteMatcher], buf: &[u8]) -> (r: Option<usize>)
    ensures
        match r {
            Some(i) => is_first_match(pattern@, buf@, i as int),
            None => !has_match(pattern@, buf@),
        },
{
    if pattern.len() > buf.len() {
        return None;
    }
    let last = buf.len() - pattern.len();
    let mut i: usize = 0;
    while i < last
        invariant
            last + pattern@.len() == buf@.len(),
            i <= last,
            forall|k: int| 0 <= k < i ==> !window_matches(pattern@, buf@, k),
        decreases last - i,
    {
        if matches_at(pattern, buf, i) {
            return Some(i);
        }
        i += 1;
    }
    if matches_at(pattern, buf, last) {
        return Some(last);
    }
    assert forall|k: int| !window_matches(pattern@, buf@, k) by {
        if 0 <= k <= last {
        }
    }
    None
}

} // verus!
