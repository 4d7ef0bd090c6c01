//! Resilient rendering of macro-expanded source trees.
//!
//! The syntax tree is held in the library's own node model (`tree`). The
//! sanitizer (`edit`) removes expansion artifacts, the scope selector
//! (`filter`) narrows a unit down to one addressed declaration, and the
//! fault-isolating renderer (`unparse`) turns a unit into text through a
//! rendering primitive that may fail on any node.
mod text;
pub mod assets;
pub mod cargo_err;
pub mod cmd;
pub mod config;
pub mod edit;
pub mod etcetera;
pub mod filter;
pub mod manifest;
pub mod opts;
pub mod path;
pub mod print;
pub mod tree;
pub mod unparse;
pub mod version;

pub use cargo_err::ignore_cargo_err;
pub use cmd::{apply_args, CommandArgs, Expand};
pub use config::{deserialize, Config};
pub use edit::{sanitize, skip_auto_derived};
pub use etcetera::{home_dir, HomeDirError};
pub use filter::{filter, Filter, FilterError};
pub use manifest::{CargoManifest, CargoPackage};
pub use opts::{get_color, Coloring};
pub use print::to_tokens;
pub use tree::{Attr, AttrModel, Category, File, FileModel, Kind, Node, NodeModel};
pub use unparse::unparse_maximal;
pub use version::Version;
