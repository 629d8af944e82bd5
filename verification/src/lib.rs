//! File-backed load/save behavior for configuration values.
//!
//! A configuration type implements [`contract::SupernovaConfig`]: it names
//! itself, encodes itself as structured text, decodes that text back, and may
//! declare a compiled-in default. The [`contract`] module states what loading
//! and saving must do with those capabilities; [`decode_config`] carries the
//! decoder settings as an example configuration type.

pub mod contract;
pub mod decode_config;
pub mod numerals;
pub mod text;

pub use contract::ConfigError;
pub use contract::CreateOutcome;
pub use contract::SaveAction;
pub use contract::SupernovaConfig;
pub use contract::config_file_name;
pub use contract::config_file_path;
pub use contract::load_from_read;
pub use contract::resolve_config_root;
pub use contract::save_if_not_exists_action;
pub use decode_config::DecoderConfig;
pub use decode_config::SupernovaDecodeConfig;
