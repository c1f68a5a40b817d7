use vstd::prelude::*;
use crate::cli::Command;
use crate::report::{session_error, session_holds, K6Report, SessionError};

verus! {

/// The program: turns a command into an export session.
pub struct App {}

impl App {
    pub fn new() -> (r: App) {
        App {}
    }

    /// The session that `command` asks for, started now.
    pub fn session(&self, command: &Command) -> (r: Result<K6Report, SessionError>)
        ensures
            match command {
                Command::Extract { host, port, database, username, password, https, from,
                    exclude_setup_steps, exclude_teardown_steps, output_directory } => match session_error(
                    host@,
                    port@,
                    *username,
                    *password,
                ) {
                    Some(e) => r == Err::<K6Report, SessionError>(e),
                    None => r matches Ok(s) && session_holds(
                        s,
                        host@,
                        port@,
                        database@,
                        *username,
                        *password,
                        *https,
                        *from,
                        *exclude_setup_steps,
                        *exclude_teardown_steps,
                        output_directory@,
                    ),
                },
            },
    {
        match command {
            Command::Extract {
                host,
                port,
                database,
                username,
                password,
                https,
                from,
                exclude_setup_steps,
                exclude_teardown_steps,
                output_directory,
            } => K6Report::new(
                host,
                port,
                database,
                username,
                password,
                https,
                from,
                exclude_setup_steps,
                exclude_teardown_steps,
                output_directory,
            ),
        }
    }
}

} // verus!
