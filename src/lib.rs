//! Simple 3D objects for the terminal: the colour palette, the nearest-hit
//! rules that compose shapes into a scene, and the layout of one text frame.

pub mod color;
pub mod frame;
pub mod hit;

pub use color::Color;
pub use frame::render_frame;
pub use hit::{Hit, nearest, recolor};
