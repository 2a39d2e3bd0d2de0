//! The startup configuration: what to watch, how, and which command to run.

use vstd::prelude::*;

verus! {

/// The immutable configuration, built once at startup.
///
/// `command` is the command template: its first element is the executable,
/// the remaining elements are its arguments. `rate_limit` is the debounce
/// window in seconds; zero means no coalescing.
pub struct Config {
    pub path: String,
    pub recursive: bool,
    pub immediate: bool,
    pub stop_on_error: bool,
    pub rate_limit: u64,
    pub command: Vec<String>,
}

impl Config {
    /// A configuration can dispatch only when the command template names
    /// at least an executable.
    pub open spec fn valid(self) -> bool {
        self.command@.len() > 0
    }

    /// Build the configuration from the startup inputs.
    pub fn new(
        path: String,
        recursive: bool,
        immediate: bool,
        stop_on_error: bool,
        rate_limit: u64,
        command: Vec<String>,
    ) -> (c: Config)
        ensures
            c.path == path,
            c.recursive == recursive,
            c.immediate == immediate,
            c.stop_on_error == stop_on_error,
            c.rate_limit == rate_limit,
            c.command == command,
    {
        Config { path, recursive, immediate, stop_on_error, rate_limit, command }
    }

    /// Check that the command template can be dispatched at all. This is
    /// meant to run before the watch loop starts: an empty template is a
    /// configuration error, not something to tolerate at dispatch time.
    pub fn is_valid(&self) -> (r: bool)
        ensures
            r == self.valid(),
    {
        self.command.len() > 0
    }

    /// The executable to run: the first element of the command template.
    pub fn program(&self) -> (p: &String)
        requires
            self.valid(),
        ensures
            *p == self.command@[0],
    {
        &self.command[0]
    }

    /// The arguments to hand to the executable: everything in the command
    /// template after the first element, in order.
    pub fn arguments(&self) -> (a: Vec<String>)
        requires
            self.valid(),
        ensures
            a@ == self.command@.skip(1),
    {
        let mut a: Vec<String> = Vec::new();
        let mut i: usize = 1;
        while i < self.command.len()
            invariant
                1 <= i <= self.command@.len(),
                a@ == self.command@.subrange(1, i as int),
            decreases self.command@.len() - i,
        {
            a.push(self.command[i].clone());
            i = i + 1;
        }
        assert(self.command@.subrange(1, self.command@.len() as int) == self.command@.skip(1));
        a
    }
}

} // verus!
