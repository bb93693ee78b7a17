//! The commands by which a batch is drawn, as a list that a render pass
//! carries out in order.

use std::ops::Range;
use vstd::prelude::*;
use crate::prepare::{BufferBinding, SpriteBatch, SpriteMeta};
use crate::queue::{ImageBindGroup, ImageBindGroups};

verus! {

/// What a bind group binds.
#[derive(Clone, Copy, Debug, PartialEq, Eq, Structural)]
pub enum BoundResources {
    /// The uniform data of a view.
    View(BufferBinding),
    /// A texture and its sampler.
    Image(ImageBindGroup),
}

/// One command of a render pass.
#[derive(Debug, PartialEq, Eq)]
pub enum PassCommand {
    /// Binds a group at `index`, with a dynamic offset if the group has one.
    SetBindGroup { index: usize, bind_group: BoundResources, dynamic_offset: Option<u32> },
    /// Reads vertices from the whole buffer of one colour mode, at `slot`.
    SetVertexBuffer { slot: usize, colored: bool },
    /// Draws a range of vertices.
    Draw { vertices: Range<u32>, instances: Range<u32> },
}

/// The commands of a render pass, in the order in which they were given.
#[derive(Debug)]
pub struct TrackedRenderPass {
    pub commands: Vec<PassCommand>,
}

impl TrackedRenderPass {
    /// A pass without commands.
    pub fn new() -> (pass: TrackedRenderPass)
        ensures
            pass.commands@.len() == 0,
    {
        TrackedRenderPass { commands: Vec::new() }
    }
}

/// How a render command ended.
#[derive(Clone, Copy, Debug, PartialEq, Eq, Structural)]
pub enum RenderCommandResult {
    Success,
    Failure,
}

/// Binds what is bound for the view, at group `I`.
#[derive(Clone, Copy, Debug)]
pub struct SetSpriteViewBindGroup<const I: usize>;

impl<const I: usize> SetSpriteViewBindGroup<I> {
    /// Binds the view's bind group with the offset of the view's uniform
    /// data. A view bind group must be there.
    pub fn render(
        view_uniform_offset: u32,
        sprite_meta: &SpriteMeta,
        pass: &mut TrackedRenderPass,
    ) -> (result: RenderCommandResult)
        requires
            sprite_meta.view_bind_group is Some,
        ensures
            result == RenderCommandResult::Success,
            final(pass).commands@ == old(pass).commands@.push(
                PassCommand::SetBindGroup {
                    index: I,
                    bind_group: BoundResources::View(sprite_meta.view_bind_group->0),
                    dynamic_offset: Some(view_uniform_offset),
                },
            ),
    {
        let binding = sprite_meta.view_bind_group.unwrap();
        pass.commands.push(
            PassCommand::SetBindGroup {
                index: I,
                bind_group: BoundResources::View(binding),
                dynamic_offset: Some(view_uniform_offset),
            },
        );
        RenderCommandResult::Success
    }
}

/// Binds what is bound for a batch's texture, at group `I`.
#[derive(Clone, Copy, Debug)]
pub struct SetSpriteTextureBindGroup<const I: usize>;

impl<const I: usize> SetSpriteTextureBindGroup<I> {
    /// Binds the bind group of the batch's texture, which must be there.
    pub fn render(
        sprite_batch: &SpriteBatch,
        image_bind_groups: &ImageBindGroups,
        pass: &mut TrackedRenderPass,
    ) -> (result: RenderCommandResult)
        requires
            image_bind_groups.values@.contains_key(sprite_batch.image_handle_id),
        ensures
            result == RenderCommandResult::Success,
            final(pass).commands@ == old(pass).commands@.push(
                PassCommand::SetBindGroup {
                    index: I,
                    bind_group: BoundResources::Image(
                        image_bind_groups.values@[sprite_batch.image_handle_id],
                    ),
                    dynamic_offset: None,
                },
            ),
    {
        let group = *image_bind_groups.values.get(&sprite_batch.image_handle_id).unwrap();
        pass.commands.push(
            PassCommand::SetBindGroup {
                index: I,
                bind_group: BoundResources::Image(group),
                dynamic_offset: None,
            },
        );
        RenderCommandResult::Success
    }
}

/// Draws the vertices of a batch.
#[derive(Clone, Copy, Debug)]
pub struct DrawSpriteBatch;

impl DrawSpriteBatch {
    /// Reads vertices from the buffer of the batch's colour mode and draws
    /// the item's range of them, once. The item must have a range.
    pub fn render(
        batch_range: &Option<Range<u32>>,
        sprite_batch: &SpriteBatch,
        pass: &mut TrackedRenderPass,
    ) -> (result: RenderCommandResult)
        requires
            batch_range is Some,
        ensures
            result == RenderCommandResult::Success,
            final(pass).commands@ == old(pass).commands@.push(
                PassCommand::SetVertexBuffer { slot: 0, colored: sprite_batch.colored },
            ).push(PassCommand::Draw { vertices: batch_range->0, instances: 0..1 }),
    {
        if sprite_batch.colored {
            pass.commands.push(PassCommand::SetVertexBuffer { slot: 0, colored: true });
        } else {
            pass.commands.push(PassCommand::SetVertexBuffer { slot: 0, colored: false });
        }
        match batch_range {
            Some(range) => {
                pass.commands.push(
                    PassCommand::Draw { vertices: range.start..range.end, instances: 0..1 },
                );
            },
            None => {},
        }
        RenderCommandResult::Success
    }
}

} // verus!
