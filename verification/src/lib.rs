//! A verified visitor and walker for a query-language syntax tree.
//!
//! The tree model lives in [`ast`]; its mathematical views in [`views`].
//! [`events`] defines the pre-order event sequence of a tree, the one
//! source of truth for what a walk does. The [`visitor`] module holds the
//! [`visitor::QueryVisitor`] capability trait and the chain predicate
//! [`visitor::visits`] that the walker's contract is stated with. The
//! walker itself is in [`walk`]; ready-made visitors in [`visitors`].

pub mod ast;
pub mod events;
pub mod views;
pub mod visitor;
pub mod visitors;
pub mod walk;
