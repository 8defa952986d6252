//! Locates silent regions in a decoded audio signal and picks, among the
//! detected gaps, the adjacent pair that encloses the longest stretch of
//! sound: the likely boundary of an episode's actual content.

pub mod config;
pub mod detector;
pub mod detector_laws;
pub mod error;
pub mod feed;
pub mod gap;
pub mod source;
