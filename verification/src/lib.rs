//! Selection lists and build-queue bookkeeping for a mass-production planner.
//!
//! A catalogue of items, grouped into categories, is shown next to a queue of
//! the items picked so far. This crate holds the two cursor-carrying lists,
//! the ordering of the queue, the text of a queue line with its material and
//! crate counts, and the rules by which commands move between the lists.

pub mod app;
pub mod catalogue;
pub mod cursor;
pub mod display;
pub mod divided_list;
pub mod item;
pub mod queue;
pub mod stateful_list;
pub mod text;
