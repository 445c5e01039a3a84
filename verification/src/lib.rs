//! Screen-region capture: geometry, pixel data, frame bookkeeping and the
//! decisions of the capture pipeline, with their contracts proved by Verus.
pub mod capture;
pub mod clock;
pub mod config;
pub mod cursor;
pub mod drm;
pub mod environment;
pub mod error;
pub mod frame;
pub mod geometry;
pub mod performance;
pub mod pipewire;
pub mod portal;
pub mod portal_backend;
pub mod procfs;
pub mod session;
pub mod text;
