//! Small web endpoints, each with its rules stated and proved: a quote store
//! with cursor pagination, a four-by-four connect game, address arithmetic,
//! order manifests, gift tokens and lockfile decorations.
//!
//! The quote store is the centre piece. [`store`] holds the table of quotes,
//! [`paginator`] hands out a frozen listing page by page under random
//! tokens, [`facade`] decides what each operation answers over HTTP, and
//! [`service`] puts the three together in memory and states what holds of
//! any run of operations.

pub mod address;
pub mod board;
pub mod decoration;
pub mod facade;
pub mod gift;
pub mod ident;
pub mod manifest;
pub mod paginator;
pub mod quote;
pub mod service;
pub mod status;
pub mod store;
pub mod text;
pub mod token;
