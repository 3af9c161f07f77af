//! A small verified library grown out of a set of classic Rust exercises.
//!
//! The centerpiece is [`blog`], a document review workflow: a post accumulates
//! text and moves through the review states Draft, PendingReview and
//! Published, and only a published post exposes its text. The other modules
//! are smaller verified pieces: a line search utility ([`minigrep`]), a
//! drawable-component screen ([`gui`]), and a few ownership, lifetime and
//! module-structure exercises with exact contracts.

pub mod blog;
pub mod gui;
pub mod lifetimes;
pub mod minigrep;
pub mod ownership;
pub mod restaurant;
