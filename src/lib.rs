//! Listing and pagination engine of a job-board backend: boundary-id cursors,
//! page arithmetic, status filters, and many-to-many join traversal.

pub mod oid;
pub mod status;
pub mod text;
pub mod paging;
pub mod models;
pub mod listing;
pub mod join;
pub mod laws;
pub mod topics;
pub mod slug;
pub mod account;
pub mod lang;
pub mod forms;
