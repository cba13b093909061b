//! Verified core of a wireframe-grid ("waveform") viewer.
//!
//! The library holds the exact logic of the viewer: generating the
//! line-strip grid mesh on an integer lattice, the camera state machine
//! driven by key events, the per-frame scene state (window size, frame
//! counter) with its event dispatch, and the byte layout of the uniform
//! block that is uploaded to the GPU. Floating-point conversion, window
//! handling and GPU calls live outside the library.

pub mod camera;
pub mod mesh;
pub mod packing;
pub mod scene;
