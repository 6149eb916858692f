//! Release tooling, development-server protocol decisions and wasm HTTP
//! resource bookkeeping of the Mycelia application stack, with their
//! contracts proved by Verus.
pub mod text;
pub mod command;
pub mod version;
pub mod rc;
pub mod release;
pub mod paths;
pub mod publish;
pub mod xtask;
pub mod server;
pub mod http;
pub mod xtask_release;
pub mod laws;
pub mod devserver;
pub mod new_project;
pub mod copy_tree;
