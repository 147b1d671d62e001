//! The rules of a desktop client for a collaborative translation and
//! typesetting workflow.
//!
//! The heart of the crate is the offline image cache in `image_cache`: how
//! the page images of a project are named on disk, which of them a download
//! still has to fetch, how many fetches run at a time and how often one is
//! tried again, what a download records of itself, and how a cached image is
//! found again. The other modules hold what the client decides about its
//! calls to the translation service and to the workflow service.
//!
//! Nothing here touches the disk, the network or the clock. An application
//! does that, hands what it has read to the functions of this crate, and
//! carries out what they return.

pub mod auth;
pub mod defer;
pub mod encoding;
pub mod http;
pub mod image_cache;
pub mod member;
pub mod notify;
pub mod project;
pub mod reply;
pub mod storage;
pub mod team;
pub mod text;
pub mod token;
pub mod user;
