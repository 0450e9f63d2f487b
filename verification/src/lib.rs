//! A minimal windowed renderer that draws one hard-coded pair of colored
//! triangles. The GPU and window calls live outside this crate; here are the
//! decisions and computations they rest on: the vertex data and its byte
//! encoding, the vertex buffer layout, the surface configuration choices, and
//! the event-dispatch table of the main loop.

pub mod events;
pub mod layout;
pub mod shape;
pub mod surface;
pub mod vertex;
