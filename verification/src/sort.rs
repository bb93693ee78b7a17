//! The order in which sprites are drawn: back to front, and among sprites of
//! one depth by texture.

use std::cmp::Ordering;
use vstd::prelude::*;
use crate::extract::ExtractedSprite;
use crate::handle::{lemma_precedes_total, lemma_precedes_transitive};

verus! {

impl ExtractedSprite {
    /// The depth at which the sprite lies.
    pub open spec fn depth(self) -> crate::math::Scalar {
        self.transform.translation.z
    }

    /// Whether the sprite is drawn before `other`: it lies deeper, or at the
    /// same depth and its texture comes first.
    pub open spec fn sorts_before(self, other: ExtractedSprite) -> bool {
        self.depth().order_key() < other.depth().order_key() || (self.depth().order_key()
            == other.depth().order_key() && self.image_handle_id.precedes(other.image_handle_id))
    }
}

/// Whether no sprite of the sequence is drawn before one that stands earlier.
pub open spec fn is_sorted(sprites: Seq<ExtractedSprite>) -> bool {
    forall|i: int, j: int|
        0 <= i < j < sprites.len() ==> !(#[trigger] sprites[j]).sorts_before(#[trigger] sprites[i])
}

/// Compares two sprites by depth, and sprites of one depth by texture.
pub fn compare_sprites(a: &ExtractedSprite, b: &ExtractedSprite) -> (ordering: Ordering)
    ensures
        (ordering == Ordering::Less) == a.sorts_before(*b),
        (ordering == Ordering::Greater) == b.sorts_before(*a),
{
    let depth_a: i64 = a.transform.translation.z.key();
    let depth_b: i64 = b.transform.translation.z.key();
    proof {
        lemma_precedes_total(a.image_handle_id, b.image_handle_id);
    }
    if depth_a < depth_b {
        Ordering::Less
    } else if depth_b < depth_a {
        Ordering::Greater
    } else if a.image_handle_id.is_before(&b.image_handle_id) {
        Ordering::Less
    } else if b.image_handle_id.is_before(&a.image_handle_id) {
        Ordering::Greater
    } else {
        Ordering::Equal
    }
}

/// The comparison is a strict order in which any two sprites that differ in
/// depth or texture are ordered, as a sort needs it.
pub proof fn lemma_sorts_before_is_strict_weak_order(
    a: ExtractedSprite,
    b: ExtractedSprite,
    c: ExtractedSprite,
)
    ensures
        !a.sorts_before(a),
        !(a.sorts_before(b) && b.sorts_before(a)),
        a.sorts_before(b) && b.sorts_before(c) ==> a.sorts_before(c),
        !a.sorts_before(b) && !b.sorts_before(a) ==> a.depth().order_key()
            == b.depth().order_key() && a.image_handle_id == b.image_handle_id,
        !a.sorts_before(b) && !b.sorts_before(c) ==> !a.sorts_before(c),
{
    lemma_precedes_total(a.image_handle_id, b.image_handle_id);
    lemma_precedes_total(b.image_handle_id, c.image_handle_id);
    lemma_precedes_total(a.image_handle_id, c.image_handle_id);
    if a.image_handle_id.precedes(b.image_handle_id) && b.image_handle_id.precedes(
        c.image_handle_id,
    ) {
        lemma_precedes_transitive(a.image_handle_id, b.image_handle_id, c.image_handle_id);
    }
    if c.image_handle_id.precedes(b.image_handle_id) && b.image_handle_id.precedes(
        a.image_handle_id,
    ) {
        lemma_precedes_transitive(c.image_handle_id, b.image_handle_id, a.image_handle_id);
    }
}

/// `<[T]>::sort_unstable_by` of std, with [`compare_sprites`] as its
/// comparison: afterwards the vector holds the same sprites, each as often as
/// before, and none is drawn before one that stands earlier. In what order
/// sprites of one depth and texture stand is left open.
#[verifier::external_body]
pub(crate) fn sort_unstable_by_depth(sprites: &mut Vec<ExtractedSprite>)
    ensures
        is_sorted(final(sprites)@),
        final(sprites)@.to_multiset() == old(sprites)@.to_multiset(),
{
    sprites.sort_unstable_by(|a, b| compare_sprites(a, b));
}

} // verus!
