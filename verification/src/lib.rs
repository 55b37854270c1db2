//! Singly-linked lists under three ownership disciplines: an integer stack
//! with exclusive ownership, a generic stack with three traversal cursors,
//! and a persistent list whose tails are shared through reference counting.

pub mod basic;
pub mod shared;
pub mod stack;
