//! A browser-embedded image compositor core: a single-slot frame handoff
//! between an external producer and a display-refresh-driven render loop.
//!
//! The producer hands complete RGBA frames to [`frame::FrameBuffer::submit_frame`];
//! the render loop consumes them one [`frame::FrameBuffer::render_tick`] at a
//! time. The flag protocol guarantees that the renderer never observes a torn
//! or mixed frame, and that a frame submitted while the slot is busy is
//! dropped in favour of the one already pending.

pub mod error;
pub mod frame;
pub mod pipeline;
