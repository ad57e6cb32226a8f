//! The settings of a server.

use vstd::prelude::*;

verus! {

/// Where the repositories lie and where the server listens.
#[derive(Clone, Debug)]
pub struct GitHttpConfig {
    pub root: String,
    pub port: u16,
    pub addr: String,
}

/// The settings as they are given on the command line.
#[derive(Clone, Debug)]
pub struct ActixServerArgs {
    pub root: String,
    pub port: u16,
    pub addr: String,
}

impl Default for ActixServerArgs {
    /// The settings of a command line that gives none: root `e:`, port 80,
    /// every address.
    fn default() -> (args: ActixServerArgs)
        ensures
            args.root@ == "e:"@,
            args.port == 80,
            args.addr@ == "0.0.0.0"@,
    {
        ActixServerArgs { root: "e:".to_owned(), port: 80, addr: "0.0.0.0".to_owned() }
    }
}

impl ActixServerArgs {
    /// The configuration that these settings ask for.
    pub fn into_config(self) -> (config: GitHttpConfig)
        ensures
            config.root == self.root,
            config.port == self.port,
            config.addr == self.addr,
    {
        GitHttpConfig { root: self.root, port: self.port, addr: self.addr }
    }
}

} // verus!
