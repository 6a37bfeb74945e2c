//! The deferred drawing core of a 2D/3D drawing API.
//!
//! A [`draw::Draw`] handle carries a drawing context (transform, blending,
//! scissor, topology, sampler); every context change yields a new handle. The
//! handles of one session share a [`state::State`] that records shapes in call
//! order: starting a shape reserves its slot at once, the shape stays pending
//! while it is configured, and it is finished into its slot on request or when
//! the commands are drained. A context change is recorded only where it
//! differs from the last one. Backends replay the drained commands
//! ([`replay`]) and turn each shape into mesh geometry ([`mesh_renderer`]) or
//! a vector-document element ([`svg_renderer`]).
pub mod context;
pub mod draw;
pub mod drawing;
pub mod geom;
pub mod mesh_renderer;
pub mod primitive;
pub mod properties;
pub mod replay;
pub mod state;
pub mod svg_renderer;
