//! Rendering and navigation engine for a terminal viewer of CI job logs.
//!
//! A raw log line is normalised ([`prefix`]), its timestamp is shown as the
//! user asks ([`timestamp`]) and its terminal escape sequences become styled
//! spans ([`ansi`], [`styled`]). Of the lines of a log ([`lines`]) a viewport
//! shows a range ([`viewport`]); a query is searched in them and its matches
//! are walked ([`search`]). [`layout`] divides the frame, [`title`] writes the
//! status line, and [`view`] puts all of it together.
//!
//! Every function is pure. The caller owns the view state (offset, query,
//! mode) and hands it in on each call; nothing is kept between calls.

pub mod ansi;
pub mod layout;
pub mod lines;
pub mod prefix;
pub mod search;
pub mod styled;
pub mod text;
pub mod timestamp;
pub mod title;
pub mod view;
pub mod viewport;
