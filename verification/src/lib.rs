//! Decision logic of the Hachimi installer: where the Hachimi DLL goes, which
//! files are backed up, patched and restored, how installed DLLs are labelled,
//! and the small geometric and process-name checks used by the user interface.

pub mod target;
pub mod paths;
pub mod pe;
pub mod version_info;
pub mod error;
pub mod patch;
pub mod installer;
pub mod window;
pub mod process;
