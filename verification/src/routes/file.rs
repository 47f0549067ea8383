//! Objects under the address that uploads are sent on to: reading them
//! back and showing them, whether they came in parts or in one piece, and
//! writing one part.

pub mod index;
pub mod view;
