//! Streaming over paginated list results.
//!
//! A list endpoint answers with one window of items at a time. This crate
//! holds the decisions that walk such a chain of windows: which link to follow,
//! when the chain is complete, and what a consumer receives. The network call
//! itself is made by the caller, which hands each fetched window (or the
//! failure) back to the state machines defined here.

pub mod drain;
pub mod error;
pub mod iter;
pub mod page;
pub mod records;

pub use drain::{Drain, DrainState};
pub use error::{AuthFailure, Error};
pub use iter::{PageIter, Pull, Pulled};
pub use page::Page;
pub use records::{
    Copyright, CopyrightType, Cursor, CursorPage, DatePrecision, ExternalIds, ExternalUrls,
    Followers, Image, PlayableItem, RestrictionReason, Restrictions, ResumePoint,
};
