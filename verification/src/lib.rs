//! The rendering core of a real-time application, verified with Verus.
//!
//! * [`table`] and [`handle`]: storage indexed by handles, and the pool that
//!   hands the handles out.
//! * [`frame`]: what the draw calls of a frame bind by name.
//! * [`device`] and [`flush`]: the tables of the graphics resources, the
//!   draw calls that wait in the views, and the plan by which a frame is
//!   realized. The device decides and records; it never calls the graphics
//!   backend. What the backend has to do comes out as [`backend`] calls and
//!   [`script`]s, and what the backend answered goes back in.
//! * [`engine`]: the timestep and the steps of the main loop.
//! * [`material`]: values for the uniforms that a shader declares.
//!
//! [`sort`] and [`named`] hold what the others share, [`flush_lemmas`] what
//! is proved of the order of a flush.

pub mod backend;
pub mod cli;
pub mod device;
pub mod engine;
pub mod errors;
pub mod flush;
pub mod flush_lemmas;
pub mod frame;
pub mod handle;
pub mod material;
pub mod named;
pub mod resource;
pub mod script;
pub mod sort;
pub mod table;
