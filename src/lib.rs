//! Small introductory exercises: a number-guessing game, the rotation of a
//! square matrix by a quarter turn, and the sum of a pair.

pub mod guess;
pub mod matrix;
pub mod pair;

pub use pair::somar;
