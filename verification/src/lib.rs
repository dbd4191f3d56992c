//! A verified model of the Lisp object representation and of the cons-cell
//! heap of a small Emacs Lisp core: tagged object words, cons allocation from
//! a free list and from blocks, and the list primitives `car`, `cdr`,
//! `setcar`, `setcdr`, `consp`, `listp`, `nlistp` and `atom`.
#![allow(non_snake_case)]
#![allow(non_upper_case_globals)]

pub mod object;
pub mod lists;
pub mod laws;
