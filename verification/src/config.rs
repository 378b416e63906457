//! The command-line front end's configuration: which server it talks
//! to, stored in a named file next to the working directory.  Reading
//! and writing the file is I/O and happens outside this library.

use vstd::prelude::*;

verus! {

/// The persisted configuration.
#[derive(Clone, Debug, PartialEq, Eq)]
pub struct CliConfig {
    pub server_url: String,
    pub server_port: Option<i32>,
}

/// Helpers of the command-line front end, bound to one configuration
/// file name.
pub struct CliTools {
    config_filename: String,
}

impl CliTools {
    /// The configuration file name this value is bound to.
    pub closed spec fn spec_filename(&self) -> Seq<char> {
        self.config_filename@
    }

    /// Binds the helpers to a configuration file name.
    pub fn new(config_filename: String) -> (r: CliTools)
        ensures
            r.spec_filename() == config_filename@,
    {
        CliTools { config_filename }
    }

    /// The configuration file name, for the caller that resolves it
    /// against the working directory.
    pub fn config_filename(&self) -> (r: &String)
        ensures
            r@ == self.spec_filename(),
    {
        &self.config_filename
    }
}

} // verus!
