//! Control core of a windowed spectral-analysis pipeline.
//!
//! A host feeds fixed-size blocks of real samples through an optional
//! amplitude window and a forward complex transform, then reads a
//! real-valued output buffer.  This crate verifies everything about that
//! pipeline that is not floating-point arithmetic: the window-name
//! catalogue with its case-insensitive parser, the per-processor state
//! (transform length, active window, coefficient-buffer length) with its
//! exact window-reconfiguration policy, and the single-slot lifecycle a
//! host drives through an explicit context handle.

pub mod buffers;
pub mod context;
pub mod processor;
pub mod window;

pub use context::BlockDecision;
pub use context::FftContext;
pub use processor::FftError;
pub use processor::SetWindowEffect;
pub use processor::WindowedFFT;
pub use window::WindowType;
