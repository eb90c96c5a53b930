//! Plane geometry primitives over a machine-integer scalar: vectors,
//! points, sizes, rectangles, circles, and compass directions, with the
//! arithmetic, conversion, and layout operations that compose them.
//!
//! Every operation is a pure value transformation; each carries a contract
//! stating exactly which fields the result holds and when it is defined.

pub mod circle;
pub mod direction;
pub mod point;
pub mod rect;
pub mod scalar;
pub mod size;
pub mod vector;

pub use crate::circle::Circle;
pub use crate::direction::Cardinal;
pub use crate::direction::Direction;
pub use crate::point::Point;
pub use crate::rect::Rect;
pub use crate::scalar::div_trunc;
pub use crate::scalar::fits;
pub use crate::scalar::rem_trunc;
pub use crate::size::Size;
pub use crate::vector::Vector;
