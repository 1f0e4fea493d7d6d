//! Build plugins for a recipe-driven image builder. Each plugin answers
//! two calls from its host: a metadata call returning a fixed identity
//! document, and a build call that turns one module declaration plus the
//! build context — both arriving as JSON — into a shell command line, or
//! defers that command to first boot through an idempotent script and
//! service-unit protocol. The synthesis tables, the boundary decoding,
//! and the persistence protocol are verified here against a model of the
//! on-disk artifacts; an embedder maps the model to real files and to the
//! C ABI the host loads.

pub mod boot_shell;
pub mod bootfs;
pub mod info;
pub mod json;
pub mod ostree_pkg;
pub mod pkg;
pub mod recipe;
pub mod silverblue_package;
pub mod strings;
