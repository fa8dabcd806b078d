//! Deciding whether an encoded address satisfies a match specification:
//! a literal pattern standing at the start or at the end of the address,
//! byte-for-byte and case-sensitive.

use vstd::prelude::*;
use vstd::string::StrSliceExecFns;

verus! {

/// Where the pattern must stand in the address.
#[derive(Clone, Copy)]
pub enum Position {
    Prefix,
    Suffix,
}

/// What a search looks for: a literal pattern at a fixed position.
pub struct MatchSpec {
    pub pattern: String,
    pub position: Position,
}

/// `p` stands at the start of `s`.
pub open spec fn spec_starts_with(s: Seq<char>, p: Seq<char>) -> bool {
    p.len() <= s.len() && forall|i: int| 0 <= i < p.len() ==> s[i] == p[i]
}

/// `p` stands at the end of `s`.
pub open spec fn spec_ends_with(s: Seq<char>, p: Seq<char>) -> bool {
    p.len() <= s.len() && forall|i: int| 0 <= i < p.len() ==> s[s.len() - p.len() + i] == p[i]
}

/// The address `s` satisfies pattern `p` at position `pos`.
pub open spec fn spec_matches(s: Seq<char>, p: Seq<char>, pos: Position) -> bool {
    match pos {
        Position::Prefix => spec_starts_with(s, p),
        Position::Suffix => spec_ends_with(s, p),
    }
}

/// Tests whether `address` satisfies `spec`: its pattern stands at the
/// spec's position, compared character by character with no case folding.
pub fn matches(address: &str, spec: &MatchSpec) -> (r: bool)
    ensures
        r == spec_matches(address@, spec.pattern@, spec.position),
{
    let alen = address.unicode_len();
    let plen = spec.pattern.as_str().unicode_len();
    if plen > alen {
        return false;
    }
    let offset: usize = match spec.position {
        Position::Prefix => 0,
        Position::Suffix => alen - plen,
    };
    let mut i: usize = 0;
    while i < plen
        invariant
            plen <= alen,
            alen == address@.len(),
            plen == spec.pattern@.len(),
            i <= plen,
            offset == match spec.position {
                Position::Prefix => 0int,
                Position::Suffix => alen - plen,
            },
            forall|j: int| 0 <= j < i ==> address@[offset + j] == spec.pattern@[j],
        decreases plen - i,
    {
        if address.get_char(offset + i) != spec.pattern.as_str().get_char(i) {
            return false;
        }
        i = i + 1;
    }
    true
}

} // verus!
