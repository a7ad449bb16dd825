//! The command line of the program.
use vstd::prelude::*;

verus! {

/// Options given on the command line.
#[derive(Debug, Clone)]
pub struct Cli {
    /// Path to the Android project root containing `gradlew`.
    pub project_path: String,
}

impl Default for Cli {
    /// The current directory is the project root unless one is given.
    fn default() -> (c: Self)
        ensures
            c.project_path@ == "."@,
    {
        Cli { project_path: ".".to_owned() }
    }
}

} // verus!
