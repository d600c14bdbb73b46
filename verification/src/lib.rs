//! Verified core of the Cynthia website engine: configuration defaults and
//! lookups, the publication list, the in-memory cache, JSON content blocks,
//! page assembly and the terminal styling helpers.

pub mod text;
pub mod assets;
pub mod config;
pub mod config_files;
pub mod contentservers;
pub mod json_text;
pub mod plugin_server;
pub mod plugins;
pub mod server;
pub mod startup;
pub mod files;
pub mod publications;
pub mod json_html;
pub mod logger;
pub mod postlists;
pub mod renders;
pub mod requests;
pub mod inlines;
pub mod tell;
