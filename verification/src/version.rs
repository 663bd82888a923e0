//! Library versions and the predicates that guard a declaration by version.

use vstd::prelude::*;
use crate::writer::{decimal_text, push_decimal};

verus! {

/// A version of a library: major, minor and micro number, ordered
/// lexicographically.
#[derive(Clone, Copy, Debug, PartialEq, Eq, Structural, PartialOrd, Ord, Hash)]
pub struct Version {
    pub major: u16,
    pub minor: u16,
    pub micro: u16,
}

impl Version {
    /// The strict lexicographic order on versions.
    pub open spec fn precedes(self, other: Version) -> bool {
        self.major < other.major || (self.major == other.major && (self.minor < other.minor || (
        self.minor == other.minor && self.micro < other.micro)))
    }

    /// `self` is `other` or a later version.
    pub open spec fn at_least(self, other: Version) -> bool {
        !self.precedes(other)
    }

    /// The predicate that holds where the library named `prefix` has this
    /// version or a later one: the prefix, major and minor number, and the
    /// micro number unless it is zero, joined by underscores.
    pub open spec fn cfg_text(self, prefix: Seq<char>) -> Seq<char> {
        let head = prefix + seq!['_'] + decimal_text(self.major as nat) + seq!['_'] + decimal_text(
            self.minor as nat,
        );
        if self.micro == 0 {
            head
        } else {
            head + seq!['_'] + decimal_text(self.micro as nat)
        }
    }

    pub fn new(major: u16, minor: u16, micro: u16) -> (version: Version)
        ensures
            version == (Version { major, minor, micro }),
    {
        Version { major, minor, micro }
    }

    /// Whether `self` comes strictly before `other`.
    pub fn is_before(&self, other: &Version) -> (before: bool)
        ensures
            before == self.precedes(*other),
    {
        if self.major != other.major {
            self.major < other.major
        } else if self.minor != other.minor {
            self.minor < other.minor
        } else {
            self.micro < other.micro
        }
    }

    /// Renders the predicate that guards a declaration available from this
    /// version on, within the namespace `prefix`.
    pub fn to_cfg(&self, prefix: &str) -> (text: String)
        ensures
            text@ == self.cfg_text(prefix@),
    {
        let mut text = String::from_str(prefix);
        text.push('_');
        push_decimal(&mut text, self.major);
        text.push('_');
        push_decimal(&mut text, self.minor);
        if self.micro != 0 {
            text.push('_');
            push_decimal(&mut text, self.micro);
        }
        proof {
            assert(prefix@.push('_') =~= prefix@ + seq!['_']);
            let a = prefix@ + seq!['_'] + decimal_text(self.major as nat);
            assert(a.push('_') =~= a + seq!['_']);
            let b = a + seq!['_'] + decimal_text(self.minor as nat);
            assert(b.push('_') =~= b + seq!['_']);
        }
        text
    }
}

/// The order on versions is total: of two versions exactly one comes first,
/// or they are the same.
pub proof fn lemma_version_order_total(a: Version, b: Version)
    ensures
        a.precedes(b) || b.precedes(a) || a == b,
        !(a.precedes(b) && b.precedes(a)),
        !a.precedes(a),
{
}

/// The order on versions is transitive.
pub proof fn lemma_version_order_transitive(a: Version, b: Version, c: Version)
    requires
        a.precedes(b),
        b.precedes(c),
    ensures
        a.precedes(c),
{
}

} // verus!
