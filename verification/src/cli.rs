//! The command line: with a prompt the assistant answers once on the
//! terminal, without one it opens the screen.

use vstd::prelude::*;

verus! {

/// The arguments of the command line.
#[derive(Debug, PartialEq, Eq)]
pub struct Cli {
    /// The prompt to answer on the terminal.
    pub prompt: Option<String>,
}

/// How the assistant is to run.
#[derive(Debug, PartialEq, Eq)]
pub enum RunMode {
    /// Answer this prompt on the terminal and end.
    Headless(String),
    /// Open the screen.
    Interactive,
}

impl Cli {
    /// How the assistant is to run: on the terminal where a prompt is
    /// given, else at the screen.
    pub fn mode(self) -> (out: RunMode)
        ensures
            match self.prompt {
                Some(prompt) => out matches RunMode::Headless(text) && text@ == prompt@,
                None => out is Interactive,
            },
    {
        match self.prompt {
            Some(prompt) => RunMode::Headless(prompt),
            None => RunMode::Interactive,
        }
    }
}

} // verus!
