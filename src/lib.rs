//! Documentation extraction and rendering for trees of Python modules.
//!
//! The library reads a model of a module's syntax tree (`parsing`, `expr`),
//! extracts documentation records from it, and renders them as pages
//! (`render`, `front_matter`). `paths` names and classifies the files of a
//! package tree, `pipeline` plans each module's page, `config` resolves the
//! run settings, and `sphinx` reads cross-reference inventories.
pub mod config;
pub mod expr;
pub mod front_matter;
pub mod parsing;
pub mod paths;
pub mod pipeline;
pub mod render;
pub mod sphinx;
pub mod text;
