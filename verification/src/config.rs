//! Configuration consumed by the core: the workspace root, the listening
//! port, the backing-server language and path, and — for the custom kind —
//! the exact launch command.

use vstd::prelude::*;

verus! {

/// Which backing language server / program runner is configured.
#[derive(Clone, Copy, Debug, PartialEq, Eq, Structural)]
pub enum Lang {
    Java,
    C,
    Custom,
}

/// The proxy's configuration, as plain values.
pub struct LsArgs {
    pub codebase_path: String,
    pub port: i32,
    pub language: Lang,
    pub lang_server_path: String,
    pub custom_lang_server_cmd: Option<String>,
}

impl LsArgs {
    /// The configuration rule: the custom server kind requires its exact
    /// launch command to be present.
    pub open spec fn wf(&self) -> bool {
        self.language is Custom ==> self.custom_lang_server_cmd is Some
    }

    /// Checks the configuration rule.
    pub fn is_valid(&self) -> (r: bool)
        ensures
            r == self.wf(),
    {
        match self.language {
            Lang::Custom => self.custom_lang_server_cmd.is_some(),
            _ => true,
        }
    }
}

} // verus!
