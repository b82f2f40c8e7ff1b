//! Turning a directory of exported posts into a dated archive.
//!
//! A post is a text file named after the moment it was made. From that
//! name come the key of the post and the directory of its day
//! ([`timestamp`]). The media found for a post are merged into its media
//! set ([`media`]), each image gets a thumbnail and a large rendition
//! with a watermark ([`geometry`], [`imaging`], [`rendition`]), and the
//! post is prepared for its template ([`instagram`], [`post`]). The work
//! is done in stages, each fanned out over a fixed pool of workers
//! ([`schedule`]) and gathered before the next begins ([`aggregate`]).
//!
//! Nothing here reads or writes a file: the library decides, its caller
//! acts.

pub mod aggregate;
pub mod calendar;
pub mod error;
pub mod geometry;
pub mod imaging;
pub mod instagram;
pub mod media;
pub mod names;
pub mod post;
pub mod rendition;
pub mod schedule;
pub mod text;
pub mod timestamp;
