//! What holds of the batches of any sequence of sprites: they divide the two
//! vertex buffers among them, every sprite lies in the batch of its run, and
//! depth decides which batch comes first.

use vstd::prelude::*;
use crate::extract::ExtractedSprite;
use crate::handle::HandleId;
use crate::prepare::{batches_of, of_kind, ready_sprites, vertex_count, GpuImage, SpriteBatch, is_ready};
use crate::sort::is_sorted;

verus! {

/// Which batch a sprite lies in: the first sprite lies in batch 0, and every
/// further sprite in the batch of the sprite before it, or in the next batch
/// if it cannot share a batch with that sprite.
pub open spec fn batch_index(sprites: Seq<ExtractedSprite>, j: int) -> int
    decreases j,
{
    if j <= 0 {
        0
    } else {
        batch_index(sprites, j - 1) + if sprites[j - 1].same_batch(sprites[j]) {
            0int
        } else {
            1int
        }
    }
}

/// Where the six vertices of a sprite start in the buffer of its colour
/// mode: behind those of the earlier sprites of that mode.
pub open spec fn first_vertex(sprites: Seq<ExtractedSprite>, j: int) -> int {
    vertex_count(sprites.take(j), sprites[j].is_colored()) as int
}

/// Whether a batch draws vertex `v` of the buffer of one colour mode.
pub open spec fn draws(batch: SpriteBatch, colored: bool, v: int) -> bool {
    batch.colored == colored && batch.range.start <= v < batch.range.end
}

/// Whether the vertices of sprite `j` lie in the batch, which has the
/// sprite's texture and colour mode.
pub open spec fn holds_sprite(batch: SpriteBatch, sprites: Seq<ExtractedSprite>, j: int) -> bool {
    &&& batch.image_handle_id == sprites[j].image_handle_id
    &&& batch.colored == sprites[j].is_colored()
    &&& batch.range.start <= first_vertex(sprites, j)
    &&& first_vertex(sprites, j) + 6 <= batch.range.end
}

spec fn last_batch_closes(sprites: Seq<ExtractedSprite>, batches: Seq<SpriteBatch>) -> bool {
    sprites.len() > 0 ==> {
        &&& batches.len() == batch_index(sprites, sprites.len() - 1) + 1
        &&& batches.last().image_handle_id == sprites.last().image_handle_id
        &&& batches.last().colored == sprites.last().is_colored()
        &&& batches.last().z_order == sprites.last().depth()
        &&& batches.last().range.end == vertex_count(sprites, sprites.last().is_colored())
    }
}

spec fn ranges_bounded(sprites: Seq<ExtractedSprite>, batches: Seq<SpriteBatch>) -> bool {
    forall|i: int|
        0 <= i < batches.len() ==> (#[trigger] batches[i]).range.start < batches[i].range.end
            <= vertex_count(sprites, batches[i].colored)
}

spec fn ranges_in_order(batches: Seq<SpriteBatch>) -> bool {
    forall|i: int, j: int|
        0 <= i < j < batches.len() && (#[trigger] batches[i]).colored == (
        #[trigger] batches[j]).colored ==> batches[i].range.end <= batches[j].range.start
}

/// Whether one of the batches draws vertex `v` of the buffer of one colour
/// mode.
pub open spec fn drawn(batches: Seq<SpriteBatch>, colored: bool, v: int) -> bool {
    exists|i: int| 0 <= i < batches.len() && draws(#[trigger] batches[i], colored, v)
}

spec fn ranges_cover(sprites: Seq<ExtractedSprite>, batches: Seq<SpriteBatch>) -> bool {
    forall|colored: bool, v: int|
        0 <= v < vertex_count(sprites, colored) ==> #[trigger] drawn(batches, colored, v)
}

spec fn sprites_held(sprites: Seq<ExtractedSprite>, batches: Seq<SpriteBatch>) -> bool {
    forall|j: int|
        0 <= j < sprites.len() ==> 0 <= #[trigger] batch_index(sprites, j) < batches.len()
            && holds_sprite(batches[batch_index(sprites, j)], sprites, j)
}

spec fn well_batched(sprites: Seq<ExtractedSprite>, batches: Seq<SpriteBatch>) -> bool {
    &&& sprites.len() == 0 ==> batches.len() == 0
    &&& last_batch_closes(sprites, batches)
    &&& ranges_bounded(sprites, batches)
    &&& ranges_in_order(batches)
    &&& ranges_cover(sprites, batches)
    &&& sprites_held(sprites, batches)
}

proof fn lemma_batch_index_prefix(sprites: Seq<ExtractedSprite>, n: int, j: int)
    requires
        0 <= j < n <= sprites.len(),
    ensures
        batch_index(sprites.take(n), j) == batch_index(sprites, j),
    decreases j,
{
    if j > 0 {
        lemma_batch_index_prefix(sprites, n, j - 1);
    }
}

proof fn lemma_count_push(sprites: Seq<ExtractedSprite>, colored: bool)
    requires
        sprites.len() > 0,
    ensures
        vertex_count(sprites, colored) == vertex_count(sprites.drop_last(), colored)
            + if sprites.last().is_colored() == colored {
            6nat
        } else {
            0nat
        },
        vertex_count(sprites, colored) <= 6 * sprites.len(),
        vertex_count(sprites.drop_last(), colored) <= 6 * (sprites.len() - 1),
{
    assert(sprites =~= sprites.drop_last().push(sprites.last()));
    sprites.drop_last().lemma_filter_push(sprites.last(), of_kind(colored));
    sprites.lemma_filter_len(of_kind(colored));
    sprites.drop_last().lemma_filter_len(of_kind(colored));
}

proof fn lemma_well_batched(sprites: Seq<ExtractedSprite>)
    requires
        6 * sprites.len() <= u32::MAX,
    ensures
        well_batched(sprites, batches_of(sprites)),
    decreases sprites.len(),
{
    let batches = batches_of(sprites);
    if sprites.len() == 0 {
        assert forall|colored: bool, v: int|
            0 <= v < vertex_count(sprites, colored) implies #[trigger] drawn(batches, colored, v) by {
            sprites.lemma_filter_len(of_kind(colored));
        }
    } else {
        let before = sprites.drop_last();
        let last = sprites.last();
        let n = before.len() as int;
        let earlier = batches_of(before);
        lemma_well_batched(before);
        lemma_count_push(sprites, true);
        lemma_count_push(sprites, false);
        let kind = last.is_colored();
        let joined = n > 0 && before.last().same_batch(last);
        assert(before =~= sprites.take(n));
        assert forall|j: int| 0 <= j < n implies batch_index(before, j) == batch_index(sprites, j)
            && first_vertex(before, j) == first_vertex(sprites, j) by {
            lemma_batch_index_prefix(sprites, n, j);
            assert(before.take(j) =~= sprites.take(j));
        }
        assert(first_vertex(sprites, n) == vertex_count(before, kind));
        if n > 0 {
            assert(batch_index(sprites, n) == batch_index(sprites, n - 1) + if joined {
                0int
            } else {
                1int
            });
        }
        assert(last_batch_closes(sprites, batches));
        assert(ranges_bounded(sprites, batches));
        assert(ranges_in_order(batches));
        assert forall|colored: bool, v: int|
            0 <= v < vertex_count(sprites, colored) implies #[trigger] drawn(batches, colored, v) by {
            if v < vertex_count(before, colored) {
                assert(drawn(earlier, colored, v));
                let i = choose|i: int| 0 <= i < earlier.len() && draws(#[trigger] earlier[i], colored, v);
                if joined && i == earlier.len() - 1 {
                    assert(draws(batches[i], colored, v));
                } else {
                    assert(batches[i] == earlier[i]);
                    assert(draws(batches[i], colored, v));
                }
            } else {
                assert(draws(batches[batches.len() - 1], colored, v));
            }
        }
        assert forall|j: int| 0 <= j < sprites.len() implies 0 <= #[trigger] batch_index(sprites, j)
            < batches.len() && holds_sprite(batches[batch_index(sprites, j)], sprites, j) by {
            if j < n {
                let b = batch_index(before, j);
                assert(holds_sprite(earlier[b], before, j));
                if joined && b == earlier.len() - 1 {
                } else {
                    assert(batches[b] == earlier[b]);
                }
            } else {
            }
        }
    }
}

/// The batches divide each vertex buffer among them.
///
/// Every batch has a range that is not empty and ends within the buffer of
/// its colour mode. No two batches of one colour mode overlap: the earlier
/// one ends before the later one starts. And no vertex is left out: every
/// vertex of either buffer is drawn by a batch of that buffer's colour mode.
pub proof fn lemma_batches_partition(sprites: Seq<ExtractedSprite>)
    requires
        6 * sprites.len() <= u32::MAX,
    ensures
        forall|i: int|
            0 <= i < batches_of(sprites).len() ==> (#[trigger] batches_of(sprites)[i]).range.start
                < batches_of(sprites)[i].range.end <= vertex_count(
                sprites,
                batches_of(sprites)[i].colored,
            ),
        forall|i: int, j: int|
            0 <= i < j < batches_of(sprites).len() && (#[trigger] batches_of(sprites)[i]).colored == (
            #[trigger] batches_of(sprites)[j]).colored ==> batches_of(sprites)[i].range.end
                <= batches_of(sprites)[j].range.start,
        forall|colored: bool, v: int|
            0 <= v < vertex_count(sprites, colored) ==> #[trigger] drawn(
                batches_of(sprites),
                colored,
                v,
            ),
{
    lemma_well_batched(sprites);
}

/// Every sprite lies in the batch of its run.
///
/// There are as many batches as runs. The batch of a sprite has the sprite's
/// texture and colour mode, and its range holds the sprite's six vertices.
/// Two sprites that follow one another lie in the same batch if they share
/// texture and colour mode, and the second lies in the next batch if they
/// differ in either.
pub proof fn lemma_batches_follow_runs(sprites: Seq<ExtractedSprite>, j: int)
    requires
        6 * sprites.len() <= u32::MAX,
        0 <= j < sprites.len(),
    ensures
        batches_of(sprites).len() == batch_index(sprites, sprites.len() - 1) + 1,
        0 <= batch_index(sprites, j) < batches_of(sprites).len(),
        holds_sprite(batches_of(sprites)[batch_index(sprites, j)], sprites, j),
        j + 1 < sprites.len() && sprites[j].same_batch(sprites[j + 1]) ==> batch_index(
            sprites,
            j + 1,
        ) == batch_index(sprites, j),
        j + 1 < sprites.len() && !sprites[j].same_batch(sprites[j + 1]) ==> batch_index(
            sprites,
            j + 1,
        ) == batch_index(sprites, j) + 1,
{
    lemma_well_batched(sprites);
}

/// A later sprite never lies in an earlier batch.
pub proof fn lemma_batch_index_monotone(sprites: Seq<ExtractedSprite>, i: int, j: int)
    requires
        0 <= i <= j,
    ensures
        batch_index(sprites, i) <= batch_index(sprites, j),
    decreases j - i,
{
    if i < j {
        lemma_batch_index_monotone(sprites, i, j - 1);
    }
}

/// Leaving sprites out of a sorted sequence leaves it sorted.
pub proof fn lemma_ready_sorted(sprites: Seq<ExtractedSprite>, images: Map<HandleId, GpuImage>)
    requires
        is_sorted(sprites),
    ensures
        is_sorted(ready_sprites(sprites, images)),
    decreases sprites.len(),
{
    reveal(Seq::filter);
    if sprites.len() > 0 {
        let before = sprites.drop_last();
        let ready = ready_sprites(before, images);
        lemma_ready_sorted(before, images);
        if images.contains_key(sprites.last().image_handle_id) {
            assert forall|i: int, j: int| 0 <= i < j < ready.len() + 1 implies !(
            #[trigger] ready.push(sprites.last())[j]).sorts_before(
                #[trigger] ready.push(sprites.last())[i],
            ) by {
                if j == ready.len() {
                    assert(ready.contains(ready[i]));
                    before.lemma_filter_contains_rev(is_ready(images), ready[i]);
                    let k = choose|k: int| 0 <= k < before.len() && before[k] == ready[i];
                    assert(!sprites[sprites.len() - 1].sorts_before(sprites[k]));
                }
            }
        }
    }
}

/// Depth decides the order of drawing.
///
/// Of two sprites that are drawn, the one that the order puts first stands
/// first and its batch is the same as the other's or an earlier one. The
/// order puts the sprite first that lies deeper; between sprites of one
/// depth, the one whose texture comes first.
pub proof fn lemma_depth_orders_batches(
    sprites: Seq<ExtractedSprite>,
    images: Map<HandleId, GpuImage>,
    i: int,
    j: int,
)
    requires
        is_sorted(sprites),
        0 <= i < ready_sprites(sprites, images).len(),
        0 <= j < ready_sprites(sprites, images).len(),
        ready_sprites(sprites, images)[i].sorts_before(ready_sprites(sprites, images)[j]),
    ensures
        i < j,
        batch_index(ready_sprites(sprites, images), i) <= batch_index(
            ready_sprites(sprites, images),
            j,
        ),
{
    lemma_ready_sorted(sprites, images);
    lemma_batch_index_monotone(ready_sprites(sprites, images), i, j);
}

} // verus!
