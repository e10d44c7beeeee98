//! Core of a real-time compute renderer: the double-buffered frame ring,
//! the CPU/GPU synchronization protocol, image-layout transition discipline,
//! descriptor-resource accounting, the staging-upload protocol, and the
//! per-frame command plan.
//!
//! Every routine here works on plain values and produces explicit plans
//! (ordered command sequences, creation parameters, pool sizes) that a thin
//! unverified shell executes against the graphics driver.

pub mod barriers;
pub mod buffers;
pub mod camera;
pub mod commands;
pub mod descriptors;
pub mod devices;
pub mod draw;
pub mod frames;
pub mod gui;
pub mod image_ops;
pub mod immediate;
pub mod params;
pub mod pipeline_gradient;
pub mod pipeline_raytracing;
pub mod pipelines;
pub mod scene;
pub mod shutdown;
pub mod support;
pub mod swapchain;
