//! The orchestration core of a windowed raster-image viewer.
//!
//! All window and GPU state is owned by a single dispatcher that consumes a
//! serial stream of requests; other threads reach it only through proxies and
//! reply channels. This crate holds that core — the request vocabulary, the
//! dispatcher's state machine, the per-window dirty-flagged uniform protocol,
//! and the aspect-fit geometry — with its behaviour stated in contracts and
//! verified. The windowing system, the rendering backend and image decoding
//! are collaborators: the dispatcher tells its caller which of their actions
//! to perform, and the caller reports their outcomes back.

pub mod args;
pub mod background;
pub mod color;
pub mod context;
pub mod errors;
pub mod events;
pub mod gpu_image;
pub mod image_info;
pub mod message;
pub mod prebuffer;
pub mod proxy;
pub mod reply;
pub mod request;
pub mod terminal;
pub mod transform;
pub mod uniforms;
pub mod window;
