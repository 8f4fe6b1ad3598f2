//! Mean nearest-neighbour distance between two sets of points in the plane:
//! the verified kernel.
//!
//! For every query point the measure takes the distance to the closest
//! reference point, and then averages those distances over the query points.
//! This crate holds the parts of that computation that are decided on
//! integers, each with a proved contract:
//!
//! * the size check on the four coordinate vectors ([`check_lengths`]);
//! * the search for the nearest reference point among the candidates of one
//!   query point ([`nearest_index`], [`nearest_key`]) and of every query
//!   point ([`nearest_keys`]).
//!
//! Distances enter the search as *keys*: unsigned 64-bit integers that are
//! ordered as the distances they stand for (see [`nearest`]). Computing a
//! distance from coordinates, and adding up and averaging the distances that
//! were selected, is floating-point arithmetic and is left to the caller:
//!
//! 1. check the lengths of the coordinate vectors;
//! 2. for every query point, make the row of the keys of its distances to
//!    the reference points;
//! 3. let [`nearest_keys`] select one key from every row;
//! 4. turn the selected keys back into distances and take their mean.
//!
//! What the search guarantees for every input is proved in [`lemmas`].

pub mod error;
pub mod lemmas;
pub mod nearest;
pub mod shape;

pub use error::SpdistError;
pub use nearest::{nearest_index, nearest_key, nearest_keys, INFINITY_KEY, ZERO_KEY};
pub use shape::check_lengths;
