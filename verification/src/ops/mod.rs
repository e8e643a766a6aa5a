//! The arithmetic operators of the vectors and of the 4x4 matrix.
//!
//! Each operator is defined for owned operands, for references, and for
//! either mix of the two, so that a caller never has to copy or borrow for
//! the operator's sake. All four forms compute the same result. None of them
//! checks its operands: what a division by zero gives is the scalar's affair.
pub mod add;
pub mod div;
pub mod mul;
pub mod sub;
