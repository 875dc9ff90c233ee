//! Batch image resizing: the rules that turn a preset and a list of source
//! files into resized, re-encoded outputs, with every rule stated as a
//! contract and proved.

pub mod dimensions;
pub mod error;
pub mod presets;
pub mod text;
pub mod paths;
pub mod format;
pub mod resizer;
pub mod imaging;
pub mod status;
pub mod application;
pub mod batch;
