//! Startup configuration: the ordered list of supervised servers and the
//! configuration schema version check.

use vstd::prelude::*;

verus! {

/// The launch description of one supervised server: display name, jar file,
/// working directory and extra launch arguments. Immutable after startup.
#[derive(Debug)]
pub struct ServerConfig {
    pub name: String,
    pub jar: String,
    pub dir: String,
    pub args: Vec<String>,
}

impl ServerConfig {
    /// Field-for-field sameness, stated over the views of the strings.
    pub open spec fn matches(&self, other: &ServerConfig) -> bool {
        &&& self.name@ == other.name@
        &&& self.jar@ == other.jar@
        &&& self.dir@ == other.dir@
        &&& self.args@.len() == other.args@.len()
        &&& forall|i: int| 0 <= i < self.args@.len() ==> self.args@[i]@ == other.args@[i]@
    }
}

impl Clone for ServerConfig {
    fn clone(&self) -> (r: Self)
        ensures
            r.matches(self),
    {
        let mut args: Vec<String> = Vec::new();
        let mut i: usize = 0;
        while i < self.args.len()
            invariant
                i <= self.args@.len(),
                args@.len() == i,
                forall|j: int| 0 <= j < i as int ==> args@[j]@ == self.args@[j]@,
            decreases self.args@.len() - i,
        {
            args.push(self.args[i].clone());
            i = i + 1;
        }
        ServerConfig {
            name: self.name.clone(),
            jar: self.jar.clone(),
            dir: self.dir.clone(),
            args,
        }
    }
}

/// The whole configuration handed over at startup: a schema version and the
/// ordered list of servers. Slot ids are assigned from this order.
#[derive(Debug)]
pub struct Config {
    pub version: u64,
    pub servers: Vec<ServerConfig>,
}

/// The newest configuration schema version this daemon understands.
pub const CONFIG_VERSION: u64 = 1;

/// Outcome of comparing a configuration's schema version against
/// [`CONFIG_VERSION`]: a newer version is a fatal startup error, an older one
/// only deserves a warning, a current one is accepted silently.
#[derive(Debug, Clone, Copy, PartialEq, Eq, Structural)]
pub enum VersionCheck {
    TooNew,
    Outdated,
    Current,
}

/// Classifies a configuration schema version against the supported one.
pub fn check_version(version: u64) -> (r: VersionCheck)
    ensures
        r is TooNew <==> version > CONFIG_VERSION,
        r is Outdated <==> version < CONFIG_VERSION,
        r is Current <==> version == CONFIG_VERSION,
{
    if version > CONFIG_VERSION {
        VersionCheck::TooNew
    } else if version < CONFIG_VERSION {
        VersionCheck::Outdated
    } else {
        VersionCheck::Current
    }
}

} // verus!
