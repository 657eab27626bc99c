//! The environment contract: what every child invocation is given, and
//! nothing else.

use crate::schema::{EnvSnapshot, EnvVar};
use crate::text::views;
use vstd::prelude::*;

verus! {

/// `LC_ALL` value enforced for deterministic output.
pub const ENV_LC_ALL: &'static str = "C";

/// `TZ` value enforced for deterministic timestamps.
pub const ENV_TZ: &'static str = "UTC";

/// `TERM` value enforced for non-interactive output.
pub const ENV_TERM: &'static str = "dumb";

/// Minimal `PATH` given to every child.
pub const ENV_PATH: &'static str = "/bin:/usr/bin";

/// The environment contract as metadata records it.
#[derive(Debug, Clone)]
pub struct EnvContract {
    pub lc_all: String,
    pub tz: String,
    pub term: String,
}

/// Return the environment contract for metadata.
pub fn env_contract() -> (contract: EnvContract)
    ensures
        contract.lc_all@ == ENV_LC_ALL@,
        contract.tz@ == ENV_TZ@,
        contract.term@ == ENV_TERM@,
{
    EnvContract {
        lc_all: ENV_LC_ALL.to_owned(),
        tz: ENV_TZ.to_owned(),
        term: ENV_TERM.to_owned(),
    }
}

/// The four variables of a child's environment, ordered by name.
pub open spec fn env_pairs(env: EnvSnapshot) -> Seq<(Seq<char>, Seq<char>)> {
    seq![
        ("LC_ALL"@, env.locale@),
        ("PATH"@, ENV_PATH@),
        ("TERM"@, env.term@),
        ("TZ"@, env.tz@),
    ]
}

/// The environment of a child: the snapshot and the search path. A child
/// starts from a cleared environment and is given these four variables.
pub fn env_map(env: &EnvSnapshot) -> (vars: Vec<EnvVar>)
    ensures
        views(vars@) == env_pairs(*env),
{
    let mut vars: Vec<EnvVar> = Vec::new();
    vars.push(EnvVar { name: "LC_ALL".to_owned(), value: env.locale.clone() });
    vars.push(EnvVar { name: "PATH".to_owned(), value: ENV_PATH.to_owned() });
    vars.push(EnvVar { name: "TERM".to_owned(), value: env.term.clone() });
    vars.push(EnvVar { name: "TZ".to_owned(), value: env.tz.clone() });
    vars
}

} // verus!
