//! The file-access and content-transformation pipeline of a markdown
//! viewer: path validation, size caps, an advisory scan for script
//! injection, CommonMark rendering, code-block highlighting, image
//! resolution, the exported document, the change-watch session, and the
//! scratch file handed to a browser.
//!
//! Filesystem and process work is left to the caller: the functions here
//! take what it found (a canonical path, a size, a lookup of an image) and
//! decide.
use vstd::prelude::*;

pub mod text;
pub mod paths;
pub mod limits;
pub mod blocks;
pub mod highlight;
pub mod images;
pub mod render;
pub mod export;
pub mod watch;
pub mod scratch;

verus! {

} // verus!
