//! Picking of interface nodes: which of the nodes under a pointer are hit.
//!
//! The nodes stand in the order in which they are drawn, so the last one
//! lies on top. For every pointer on a camera, the nodes of that camera
//! under the pointer are looked at from the top down, until one blocks.

use vstd::prelude::*;
use crate::queue::Entity;

verus! {

/// How a node answers to a pointer.
#[derive(Clone, Copy, Debug, PartialEq, Eq, Structural)]
pub struct Pickable {
    /// Whether the node keeps the pointer from the nodes below it.
    pub should_block_lower: bool,
    /// Whether the node itself takes part in hovering.
    pub is_hoverable: bool,
}

/// Which pointer it is.
#[derive(Clone, Copy, Debug, PartialEq, Eq, Hash, Structural)]
pub enum PointerId {
    /// The mouse.
    Mouse,
    /// A finger, by its number.
    Touch(u64),
    /// Another pointer, by its identifier.
    Custom(u128),
}

/// A node of the interface, with what picking needs to know of it.
#[derive(Debug)]
pub struct NodeQuery {
    pub entity: Entity,
    pub pickable: Option<Pickable>,
    /// Whether the node is drawn, if that is known.
    pub view_visibility: Option<bool>,
    /// The camera that the node asks for, if it asks for one.
    pub target_camera: Option<Entity>,
    /// Whether the node takes up room.
    pub has_size: bool,
    /// The pointers on the node's camera that lie within the part of the
    /// node that can be seen.
    pub pointers_within: Vec<PointerId>,
}

/// The nodes that a pointer hits on a camera, from the topmost down.
#[derive(Debug, PartialEq, Eq)]
pub struct PointerHits {
    pub pointer: PointerId,
    pub camera: Entity,
    pub picks: Vec<Pick>,
}

/// A [`PointerHits`] as a plain value.
pub struct PointerHitsView {
    pub pointer: PointerId,
    pub camera: Entity,
    pub picks: Seq<Pick>,
}

impl View for PointerHits {
    type V = PointerHitsView;

    open spec fn view(&self) -> PointerHitsView {
        PointerHitsView { pointer: self.pointer, camera: self.camera, picks: self.picks@ }
    }
}

/// A node under a pointer.
#[derive(Clone, Copy, Debug, PartialEq, Eq, Structural)]
pub struct HoveredNode {
    pub entity: Entity,
    /// The camera of the node: its own, or else the default one.
    pub camera: Option<Entity>,
    pub pickable: Option<Pickable>,
}

/// A node that was hit.
#[derive(Clone, Copy, Debug, PartialEq, Eq, Structural)]
pub struct Pick {
    pub entity: Entity,
    pub camera: Entity,
    /// How many hits lie above this one: each lies a small step deeper than
    /// the one above it.
    pub depth_steps: usize,
}

impl HoveredNode {
    /// Whether the node keeps the pointer from the nodes below it. A node
    /// that does not say blocks.
    pub open spec fn blocks(self) -> bool {
        match self.pickable {
            Some(pickable) => pickable.should_block_lower,
            None => true,
        }
    }
}

impl NodeQuery {
    /// The camera of the node: the one it asks for, or else the default one.
    pub open spec fn spec_camera(self, default_ui_camera: Option<Entity>) -> Option<Entity> {
        match self.target_camera {
            Some(camera) => Some(camera),
            None => default_ui_camera,
        }
    }

    /// Whether the node lies under a pointer on a camera: it is drawn, the
    /// camera is its camera, it takes up room, and the pointer lies within
    /// it.
    pub open spec fn is_under(
        self,
        default_ui_camera: Option<Entity>,
        camera: Entity,
        pointer: PointerId,
    ) -> bool {
        &&& self.view_visibility == Some(true)
        &&& self.spec_camera(default_ui_camera) == Some(camera)
        &&& self.has_size
        &&& self.pointers_within@.contains(pointer)
    }

    /// The node as one that lies under a pointer.
    pub open spec fn hovered(self, default_ui_camera: Option<Entity>) -> HoveredNode {
        HoveredNode {
            entity: self.entity,
            camera: self.spec_camera(default_ui_camera),
            pickable: self.pickable,
        }
    }

    /// The camera of the node: the one it asks for, or else the default one.
    pub fn camera(&self, default_ui_camera: Option<Entity>) -> (camera: Option<Entity>)
        ensures
            camera == self.spec_camera(default_ui_camera),
    {
        match self.target_camera {
            Some(camera) => Some(camera),
            None => default_ui_camera,
        }
    }

    /// Whether the pointer is one of those that lie within the node.
    pub fn is_within(&self, pointer: PointerId) -> (found: bool)
        ensures
            found == self.pointers_within@.contains(pointer),
    {
        let mut i: usize = 0;
        while i < self.pointers_within.len()
            invariant
                i <= self.pointers_within.len(),
                forall|k: int| 0 <= k < i ==> self.pointers_within@[k] != pointer,
            decreases self.pointers_within.len() - i,
        {
            if self.pointers_within[i] == pointer {
                return true;
            }
            i += 1;
        }
        false
    }
}

/// The nodes under a pointer on a camera, from the topmost down, where the
/// last node of `ui_stack` lies on top.
pub open spec fn hovered_nodes(
    ui_stack: Seq<NodeQuery>,
    default_ui_camera: Option<Entity>,
    camera: Entity,
    pointer: PointerId,
) -> Seq<HoveredNode>
    decreases ui_stack.len(),
{
    if ui_stack.len() == 0 {
        Seq::empty()
    } else {
        let below = hovered_nodes(ui_stack.drop_last(), default_ui_camera, camera, pointer);
        if ui_stack.last().is_under(default_ui_camera, camera, pointer) {
            seq![ui_stack.last().hovered(default_ui_camera)] + below
        } else {
            below
        }
    }
}

/// The hits of the pointers, in the pointers' order: for every pointer on a
/// camera under which a node lies, the nodes that it hits.
pub open spec fn pointer_hits(
    pointers: Seq<(Entity, PointerId)>,
    default_ui_camera: Option<Entity>,
    ui_stack: Seq<NodeQuery>,
) -> Seq<PointerHitsView>
    decreases pointers.len(),
{
    if pointers.len() == 0 {
        Seq::empty()
    } else {
        let earlier = pointer_hits(pointers.drop_last(), default_ui_camera, ui_stack);
        let (camera, pointer) = pointers.last();
        let hovered = hovered_nodes(ui_stack, default_ui_camera, camera, pointer);
        if hovered.len() > 0 {
            earlier.push(PointerHitsView { pointer, camera, picks: picks_from(hovered, 0) })
        } else {
            earlier
        }
    }
}

/// The hits among the nodes under a pointer, which stand from the topmost
/// down, given that `depth_steps` hits lie above them already.
///
/// A node without a camera is passed over. Every other node is hit, and if
/// it blocks, the nodes below it are not looked at.
pub open spec fn picks_from(hovered: Seq<HoveredNode>, depth_steps: nat) -> Seq<Pick>
    decreases hovered.len(),
{
    if hovered.len() == 0 {
        Seq::empty()
    } else {
        let node = hovered.first();
        match node.camera {
            None => picks_from(hovered.drop_first(), depth_steps),
            Some(camera) => {
                let pick = Pick { entity: node.entity, camera, depth_steps: depth_steps as usize };
                if node.blocks() {
                    seq![pick]
                } else {
                    seq![pick] + picks_from(hovered.drop_first(), depth_steps + 1)
                }
            },
        }
    }
}

/// The hits among the nodes under a pointer, which stand from the topmost
/// down.
pub fn picks(hovered: &Vec<HoveredNode>) -> (picks: Vec<Pick>)
    ensures
        picks@ == picks_from(hovered@, 0),
{
    let mut picks: Vec<Pick> = Vec::new();
    let mut depth: usize = 0;
    let mut i: usize = 0;
    assert(hovered@.skip(0) =~= hovered@);
    assert(picks@ + picks_from(hovered@, 0) =~= picks_from(hovered@, 0));
    while i < hovered.len()
        invariant_except_break
            picks_from(hovered@, 0) == picks@ + picks_from(hovered@.skip(i as int), depth as nat),
        invariant
            i <= hovered.len(),
            depth <= i,
        ensures
            picks_from(hovered@, 0) == picks@,
        decreases hovered.len() - i,
    {
        let node = hovered[i];
        proof {
            assert(hovered@.skip(i as int).drop_first() =~= hovered@.skip(i + 1));
            assert(hovered@.skip(i as int).first() == node);
        }
        i += 1;
        let camera = match node.camera {
            Some(camera) => camera,
            None => {
                if i == hovered.len() {
                    assert(picks@ + picks_from(hovered@.skip(i as int), depth as nat) =~= picks@);
                }
                continue ;
            },
        };
        let pick = Pick { entity: node.entity, camera, depth_steps: depth };
        let ghost rest = picks_from(hovered@.skip(i as int), depth as nat + 1);
        assert(picks@.push(pick) + rest =~= picks@ + (seq![pick] + rest));
        assert(picks@.push(pick) =~= picks@ + seq![pick]);
        picks.push(pick);
        let blocks = match node.pickable {
            // If an entity has a `Pickable` component, we will use that as the source of truth.
            Some(pickable) => pickable.should_block_lower,
            // If the Pickable component doesn't exist, default behavior is to block.
            None => true,
        };
        if blocks {
            break ;
        }
        depth += 1;
        if i == hovered.len() {
            assert(picks@ + picks_from(hovered@.skip(i as int), depth as nat) =~= picks@);
        }
    }
    picks
}

/// The nodes under a pointer on a camera, from the topmost down.
pub fn nodes_under(
    ui_stack: &Vec<NodeQuery>,
    default_ui_camera: Option<Entity>,
    camera: Entity,
    pointer: PointerId,
) -> (hovered: Vec<HoveredNode>)
    ensures
        hovered@ == hovered_nodes(ui_stack@, default_ui_camera, camera, pointer),
{
    let mut hovered: Vec<HoveredNode> = Vec::new();
    let mut i: usize = ui_stack.len();
    assert(ui_stack@.take(i as int) =~= ui_stack@);
    // traverse the stack from closest nodes to furthest
    while i > 0
        invariant
            i <= ui_stack.len(),
            hovered_nodes(ui_stack@, default_ui_camera, camera, pointer) == hovered@
                + hovered_nodes(ui_stack@.take(i as int), default_ui_camera, camera, pointer),
        decreases i,
    {
        let ghost upper = ui_stack@.take(i as int);
        i -= 1;
        let node = &ui_stack[i];
        proof {
            assert(upper.drop_last() =~= ui_stack@.take(i as int));
            assert(upper.last() == ui_stack@[i as int]);
        }
        let ghost below = hovered_nodes(ui_stack@.take(i as int), default_ui_camera, camera, pointer);
        // Nodes that are not rendered should not be interactable
        let visible = match node.view_visibility {
            Some(visible) => visible,
            None => false,
        };
        let on_camera = match node.camera(default_ui_camera) {
            Some(node_camera) => node_camera == camera,
            None => false,
        };
        if visible && on_camera && node.has_size && node.is_within(pointer) {
            let found = HoveredNode {
                entity: node.entity,
                camera: node.camera(default_ui_camera),
                pickable: node.pickable,
            };
            assert(hovered@.push(found) + below =~= hovered@ + (seq![found] + below));
            hovered.push(found);
        }
    }
    assert(hovered@ + Seq::<HoveredNode>::empty() =~= hovered@);
    hovered
}

/// Computes the nodes under each pointer.
///
/// `pointers` holds each pointer with the camera on which it is; `ui_stack`
/// holds the nodes in the order in which they are drawn, which is the order
/// that picking needs. A pointer under which no node lies has no hits.
pub fn ui_picking(
    pointers: &Vec<(Entity, PointerId)>,
    default_ui_camera: Option<Entity>,
    ui_stack: &Vec<NodeQuery>,
) -> (output: Vec<PointerHits>)
    ensures
        output@.map_values(|hits: PointerHits| hits@) == pointer_hits(
            pointers@,
            default_ui_camera,
            ui_stack@,
        ),
{
    let mut output: Vec<PointerHits> = Vec::new();
    let mut i: usize = 0;
    assert(output@.map_values(|hits: PointerHits| hits@) =~= pointer_hits(
        pointers@.take(0),
        default_ui_camera,
        ui_stack@,
    ));
    while i < pointers.len()
        invariant
            i <= pointers.len(),
            output@.map_values(|hits: PointerHits| hits@) == pointer_hits(
                pointers@.take(i as int),
                default_ui_camera,
                ui_stack@,
            ),
        decreases pointers.len() - i,
    {
        let (camera, pointer) = pointers[i];
        let ghost earlier = output@.map_values(|hits: PointerHits| hits@);
        proof {
            assert(pointers@.take(i + 1).drop_last() =~= pointers@.take(i as int));
            assert(pointers@.take(i + 1).last() == pointers@[i as int]);
        }
        let hovered = nodes_under(ui_stack, default_ui_camera, camera, pointer);
        if hovered.len() > 0 {
            let hits = PointerHits { pointer, camera, picks: picks(&hovered) };
            output.push(hits);
            assert(output@.map_values(|hits: PointerHits| hits@) =~= earlier.push(hits@));
        }
        i += 1;
    }
    assert(pointers@.take(i as int) =~= pointers@);
    output
}

/// There are no more hits than nodes, and the hits count up: each lies one
/// step deeper than the hit before it.
pub proof fn lemma_picks_count_up(hovered: Seq<HoveredNode>, depth_steps: nat, i: int)
    requires
        0 <= i < picks_from(hovered, depth_steps).len(),
        depth_steps + hovered.len() <= usize::MAX,
    ensures
        picks_from(hovered, depth_steps).len() <= hovered.len(),
        picks_from(hovered, depth_steps)[i].depth_steps == depth_steps + i,
    decreases hovered.len(),
{
    if hovered.len() > 0 {
        let node = hovered.first();
        match node.camera {
            None => {
                lemma_picks_count_up(hovered.drop_first(), depth_steps, i);
            },
            Some(camera) => {
                if !node.blocks() && i > 0 {
                    lemma_picks_count_up(hovered.drop_first(), depth_steps + 1, i - 1);
                }
                if !node.blocks() {
                    lemma_picks_len(hovered.drop_first(), depth_steps + 1);
                }
            },
        }
    }
}

proof fn lemma_picks_len(hovered: Seq<HoveredNode>, depth_steps: nat)
    ensures
        picks_from(hovered, depth_steps).len() <= hovered.len(),
    decreases hovered.len(),
{
    if hovered.len() > 0 {
        lemma_picks_len(hovered.drop_first(), depth_steps);
        lemma_picks_len(hovered.drop_first(), depth_steps + 1);
    }
}

} // verus!
