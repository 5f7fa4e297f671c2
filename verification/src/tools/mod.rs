//! The logic of the tools that an agent can call.

pub mod definition;
pub mod lsp;
pub mod lsp_client;
pub mod lsp_edit;
pub mod lsp_format;
pub mod lsp_symbols;
pub mod mime;
pub mod mutation_queue;
pub mod notebook;
pub mod notebook_edit;
pub mod notebook_run;
pub mod paths;
pub mod web_search;
