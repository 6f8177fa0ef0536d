//! Resolves a short alias and its trailing tokens into a shell command line, from a mapping of
//! aliases to command templates loaded from a JSON or YAML configuration file.

pub mod alias_map;
pub mod build_cmd;
pub mod command_file;
pub mod error;

pub use alias_map::AliasMap;
pub use build_cmd::{build_cmd, Cmd};
pub use command_file::{
    CommandFile, CommandFileKind, CommandFileService, EnvConfig, JsonCommandFile, YamlCommandFile,
};
pub use error::CaiError;
