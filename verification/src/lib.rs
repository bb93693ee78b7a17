//! Batching of 2D sprites into draw calls.
//!
//! Once per frame the sprites of a scene pass through three stages.
//! Extraction ([`extract`]) turns a snapshot of the scene into a flat list
//! of sprite records. Preparation ([`prepare`]) sorts the records back to
//! front ([`sort`]), leaves out those whose texture is not ready, and turns
//! runs of sprites that share a texture and a colour mode into batches, each
//! a range of vertices in one of two buffers. Queueing ([`queue`]) adds one
//! draw item per batch to the phase of every view, and sees to it that the
//! pipelines ([`pipeline`], [`pipeline_key`]) and bind groups that the draws
//! need are there.
//!
//! Nothing here touches a GPU or computes with real numbers: a number is
//! held by its bit pattern ([`math`]), a GPU object by its description, and
//! what is to be done on the GPU is returned as plain values ([`draw`],
//! [`quad`]). What holds of the batches of every list of sprites is proved
//! in [`partition`].

pub mod color;
pub mod draw;
pub mod extract;
pub mod handle;
pub mod handle_map;
pub mod math;
pub mod partition;
pub mod picking;
pub mod pipeline;
pub mod pipeline_key;
pub mod prepare;
pub mod quad;
pub mod queue;
pub mod sort;
