//! Recursive algebraic data types — unary natural numbers and boolean
//! expression trees — defined once against a shape contract and instantiated
//! under two node-ownership strategies (exclusive and shared).

pub mod concat;
pub mod expr;
pub mod peano;
pub mod peano_box;
pub mod peano_rc;
