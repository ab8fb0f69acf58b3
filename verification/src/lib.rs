//! Verified core of a binding to the Allegro 5 game programming library.
//!
//! The foreign calls themselves live outside this crate; what stands here is
//! everything the binding decides on its own: how status codes become
//! results, how its flag and enum types map onto Allegro's integer constants,
//! how a packed version number is read, the start-up sequence, the caching of
//! input event sources and the argument preparation of the font addon.

pub mod blend;
pub mod constants;
pub mod display;
pub mod flags;
pub mod font;
pub mod init;
pub mod status;
pub mod system;
pub mod version;
