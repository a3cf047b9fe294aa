//! Finds one suitable picture in a remote feed, keeps it on disk exactly once
//! and hands it over for use as a desktop background.
//!
//! The library decides and computes; it neither reaches the network nor
//! touches the disk. What it needs from outside it asks of its caller, one
//! action at a time (see [`selection`]), and what it is handed it takes as
//! plain values.
//!
//! - [`reddit`]: the query, and the address at which the feed answers it.
//! - [`configuration`]: the settings of a run and how several sources of
//!   settings combine.
//! - [`json`]: the answer of the feed as a tree.
//! - [`feed`]: the candidates that the answer offers.
//! - [`image`]: format and size of a picture, from its bytes.
//! - [`wallpaper`]: a candidate, and what each stage of the search adds to
//!   it.
//! - [`filename`]: the name of the file in which a wallpaper is kept.
//! - [`cache`]: finding a wallpaper among the files on disk.
//! - [`ratio`]: exact bounds on shape and size.
//! - [`shuffle`]: random orders.
//! - [`selection`]: the search itself, as a machine of states.
//! - [`policy`]: what the search finds, and the proof that the machine finds
//!   it.
//! - [`text`]: helpers for texts.

pub mod cache;
pub mod configuration;
pub mod feed;
pub mod filename;
pub mod image;
pub mod json;
pub mod policy;
pub mod ratio;
pub mod reddit;
pub mod selection;
pub mod shuffle;
pub mod text;
pub mod wallpaper;
