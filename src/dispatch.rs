//! The top level of the tool: which database to open and which command to
//! run on it.

use vstd::prelude::*;
use crate::error::ResourceError;
use crate::resource::{run_answers, Cli, CommandOutput};
use crate::store::{Sent, Store};
use crate::schema::{init_answers, initialse_database};

verus! {

/// The marker that asks for a fresh in-memory database.
pub const MEMORY_TARGET: &'static str = ":memory:";

/// The database to connect to.
pub enum DBArg {
    /// A fresh in-memory database.
    Memory,
    /// A database file at this path.
    Path(String),
}

impl DBArg {
    /// Reads a database argument: the memory marker, or else a path.
    pub fn from_str(s: &str) -> (r: DBArg)
        ensures
            s@ == MEMORY_TARGET@ ==> r is Memory,
            s@ != MEMORY_TARGET@ ==> (r matches DBArg::Path(p) && p@ == s@),
    {
        let given = String::from_str(s);
        let marker = String::from_str(MEMORY_TARGET);
        if given == marker {
            DBArg::Memory
        } else {
            DBArg::Path(given)
        }
    }
}

/// The commands of the tool.
pub enum Commands {
    /// Create the schema.
    InitDatabase,
    /// A repository operation.
    Resource(Cli),
}

/// `cmd.dispatch(store)` answered `r`: the answer of the schema
/// initialiser, or of the repository command, passed on unchanged.
pub open spec fn dispatch_answers(cmd: Commands, before: Seq<Sent>, after: Seq<Sent>, r: Result<Option<CommandOutput>, ResourceError>) -> bool {
    match cmd {
        Commands::InitDatabase => exists|ri: Result<(), ResourceError>|
            #[trigger] init_answers(before, after, ri) && r == match ri {
                Ok(()) => Ok::<Option<CommandOutput>, ResourceError>(None),
                Err(e) => Err(e),
            },
        Commands::Resource(cli) => exists|ri: Result<CommandOutput, ResourceError>|
            #[trigger] run_answers(cli, before, after, ri) && r == match ri {
                Ok(out) => Ok::<Option<CommandOutput>, ResourceError>(Some(out)),
                Err(e) => Err(e),
            },
    }
}

impl Commands {
    /// Runs the command through `store`. Initialising the schema answers
    /// with no value; a repository operation answers with the value that
    /// `Cli::run` gives.
    pub fn dispatch(self, store: &mut Store) -> (r: Result<Option<CommandOutput>, ResourceError>)
        ensures
            dispatch_answers(self, old(store).sent(), final(store).sent(), r),
    {
        match self {
            Commands::InitDatabase => {
                let ri = initialse_database(store);
                assert(init_answers(old(store).sent(), store.sent(), ri));
                match ri {
                    Ok(()) => Ok(None),
                    Err(e) => Err(e),
                }
            },
            Commands::Resource(cli) => {
                let ghost c = cli;
                let ri = cli.run(store);
                assert(run_answers(c, old(store).sent(), store.sent(), ri));
                match ri {
                    Ok(out) => Ok(Some(out)),
                    Err(e) => Err(e),
                }
            },
        }
    }
}

} // verus!
