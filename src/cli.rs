use vstd::prelude::*;

verus! {

/// What the program is asked to do.
#[derive(Clone, Debug)]
pub enum Command {
    /// Extracts test results in the CSV format from the database.
    Extract {
        host: String,
        port: String,
        database: String,
        username: Option<String>,
        password: Option<String>,
        https: bool,
        from: Option<u64>,
        exclude_setup_steps: bool,
        exclude_teardown_steps: bool,
        output_directory: String,
    },
}

} // verus!
