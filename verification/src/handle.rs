//! The identity of an asset, such as a texture.

use vstd::prelude::*;

verus! {

/// The identity of an asset.
#[derive(Clone, Copy, Debug, PartialEq, Eq, Hash, Structural)]
pub enum HandleId {
    /// A loaded asset: the type's identifier and a number within the type.
    Id(u128, u64),
    /// A pending asset: the identifiers of its source path and of its label.
    AssetPathId(u64, u64),
}

impl HandleId {
    /// Which variant it is: 0 for `Id`, 1 for `AssetPathId`.
    pub open spec fn rank(self) -> int {
        match self {
            HandleId::Id(_, _) => 0,
            HandleId::AssetPathId(_, _) => 1,
        }
    }

    /// The variant's first number.
    pub open spec fn major(self) -> int {
        match self {
            HandleId::Id(type_id, _) => type_id as int,
            HandleId::AssetPathId(source, _) => source as int,
        }
    }

    /// The variant's second number.
    pub open spec fn minor(self) -> int {
        match self {
            HandleId::Id(_, id) => id as int,
            HandleId::AssetPathId(_, label) => label as int,
        }
    }

    /// The order of identities: loaded assets come before pending ones, and
    /// within a variant the first number decides before the second.
    pub open spec fn precedes(self, other: HandleId) -> bool {
        self.rank() < other.rank() || (self.rank() == other.rank() && (self.major() < other.major()
            || (self.major() == other.major() && self.minor() < other.minor())))
    }

    /// Whether `self` comes before `other`.
    pub fn is_before(&self, other: &HandleId) -> (before: bool)
        ensures
            before == self.precedes(*other),
    {
        match (self, other) {
            (HandleId::Id(a, b), HandleId::Id(c, d)) => *a < *c || (*a == *c && *b < *d),
            (HandleId::Id(_, _), HandleId::AssetPathId(_, _)) => true,
            (HandleId::AssetPathId(_, _), HandleId::Id(_, _)) => false,
            (HandleId::AssetPathId(a, b), HandleId::AssetPathId(c, d)) => {
                *a < *c || (*a == *c && *b < *d)
            },
        }
    }
}

/// Of two different identities, one comes before the other.
pub proof fn lemma_precedes_total(a: HandleId, b: HandleId)
    ensures
        a == b || a.precedes(b) || b.precedes(a),
        !(a.precedes(b) && b.precedes(a)),
        !a.precedes(a),
{
}

/// The order of identities is transitive.
pub proof fn lemma_precedes_transitive(a: HandleId, b: HandleId, c: HandleId)
    requires
        a.precedes(b),
        b.precedes(c),
    ensures
        a.precedes(c),
{
}

} // verus!
