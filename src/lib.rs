//! Host-side logic of a GPU particle-trail renderer: shader source assembly,
//! workgroup sizing, the accumulation resource set that is rebuilt on every
//! resize, the ordered per-frame pass plan, and the surface acquire policy.

pub mod compositor;
pub mod dispatch;
pub mod resources;
pub mod settings;
pub mod shader;
pub mod surface;
