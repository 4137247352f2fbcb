//! Ownership and borrowing on owned text values, with every hand-over
//! stated as a contract: what a call takes, what it gives back, and what
//! it leaves untouched.

pub mod borrow;
pub mod demo;
pub mod text;
