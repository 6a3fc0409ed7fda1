//! Building the process invocation of a slot from its launch description.
//!
//! The spawn itself happens outside this crate; this module only assembles,
//! and pins down exactly, what is spawned: the `java` program, run in the
//! slot's working directory, handed `-jar <dir>/<jar> nogui` followed by the
//! configured extra arguments.

use crate::config::ServerConfig;
use vstd::prelude::*;
use vstd::string::StringExecFns;

verus! {

/// A fully assembled process invocation: program, arguments in order, and
/// working directory.
#[derive(Debug)]
pub struct Invocation {
    pub program: String,
    pub args: Vec<String>,
    pub dir: String,
}

/// Assembles the invocation that starts the given server: `java`, in the
/// configured working directory, with `-jar`, the jar's path inside that
/// directory, `nogui`, and then every configured extra argument in order.
pub fn launch_invocation(cfg: &ServerConfig) -> (inv: Invocation)
    ensures
        inv.program@ == "java"@,
        inv.dir@ == cfg.dir@,
        inv.args@.len() == cfg.args@.len() + 3,
        inv.args@[0]@ == "-jar"@,
        inv.args@[1]@ == cfg.dir@ + "/"@ + cfg.jar@,
        inv.args@[2]@ == "nogui"@,
        forall|i: int| 0 <= i < cfg.args@.len() ==> inv.args@[i + 3]@ == cfg.args@[i]@,
{
    let mut jar_path = cfg.dir.clone();
    jar_path.append("/");
    jar_path.append(cfg.jar.as_str());

    let mut args: Vec<String> = Vec::new();
    args.push("-jar".to_owned());
    args.push(jar_path);
    args.push("nogui".to_owned());

    let mut i: usize = 0;
    while i < cfg.args.len()
        invariant
            i <= cfg.args@.len(),
            args@.len() == i + 3,
            args@[0]@ == "-jar"@,
            args@[1]@ == cfg.dir@ + "/"@ + cfg.jar@,
            args@[2]@ == "nogui"@,
            forall|j: int| 0 <= j < i as int ==> args@[j + 3]@ == cfg.args@[j]@,
        decreases cfg.args@.len() - i,
    {
        args.push(cfg.args[i].clone());
        i = i + 1;
    }

    Invocation { program: "java".to_owned(), args, dir: cfg.dir.clone() }
}

} // verus!
