//! A build orchestrator's core: which workspace, project and profile a
//! command applies to, which native build tool drives a project, and a
//! reversible history of the structural changes made to a workspace.

use vstd::prelude::*;

pub mod table;
pub mod tree;
pub mod oplog;
pub mod commands;
pub mod resolve;
pub mod backend;
pub mod cli;
pub mod text;
pub mod apps;
pub mod rustup;
pub mod lexer;

verus! {

/// The program's name, used for its per-scope configuration directory.
pub const APP_NAME: &'static str = "abuild";

/// The configuration directory of a scope, relative to the scope's root:
/// `./.<app_name>`.
pub fn app_config_dir(app_name: &str) -> (r: String)
    ensures
        r@ == "./."@ + app_name@,
{
    let dir = String::from_str("./.");
    dir.concat(app_name)
}

} // verus!
