//! Swapchain lifecycle and frame-submission policy for a real-time renderer.
//!
//! The policy is a pair of state machines that decide and never perform: each
//! GPU operation is asked for as an action and its outcome comes back as an
//! event. The rules for staleness, recreation and the hand-over of the
//! completion future are stated over those machines and proved for every
//! answer a device can give.
//!
//! * [`chain`]: the presentation chain manager.
//! * [`frame`]: the frame submission engine.
//! * [`engine`]: the outer loop around it.
//! * [`laws`]: what holds of every run.
//! * [`config`], [`device`]: configuration and one-time choices.
//! * [`vulkan`], [`geometry`]: the operations carried out on a Vulkan device
//!   from here: rebuilding the swapchain, acquiring an image, deriving the
//!   per-image framebuffers, uploading the vertices.

pub mod chain;
pub mod config;
pub mod device;
pub mod engine;
pub mod error;
pub mod frame;
pub mod geometry;
pub mod laws;
pub mod vulkan;
