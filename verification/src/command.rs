//! The worked example: a process-invocation record and the companion
//! builder the generator plans for it, written out.
//!
//! `executable` is a required plain field; `args` and `env` are
//! collections with per-element setters named `arg` and `env`;
//! `current_dir` is optional. The builder starts with everything absent
//! and both collections empty; `build` yields the record once the
//! executable was set, and otherwise fails naming it.

use vstd::prelude::*;

verus! {

/// A process invocation description.
#[derive(Debug)]
pub struct Command {
    pub executable: String,
    pub args: Vec<String>,
    pub env: Vec<String>,
    pub current_dir: Option<String>,
}

/// The builder for [`Command`]: a mutable accumulator with one storage
/// field per record field.
#[derive(Debug)]
pub struct CommandBuilder {
    pub executable: Option<String>,
    pub args: Vec<String>,
    pub env: Vec<String>,
    pub current_dir: Option<String>,
}

impl Command {
    /// A fresh builder in its default state: plain and optional fields
    /// absent, collections empty.
    pub fn builder() -> (b: CommandBuilder)
        ensures
            b.executable is None,
            b.args@.len() == 0,
            b.env@.len() == 0,
            b.current_dir is None,
    {
        CommandBuilder { executable: None, args: Vec::new(), env: Vec::new(), current_dir: None }
    }
}

impl CommandBuilder {
    /// Sets the required executable; a later call replaces the value.
    pub fn executable(&mut self, value: String) -> (r: &mut Self)
        ensures
            *final(self) == *final(r),
            r.executable == Some(value),
            r.args == old(self).args,
            r.env == old(self).env,
            r.current_dir == old(self).current_dir,
    {
        self.executable = Some(value);
        self
    }

    /// Appends one argument (per-element setter for `args`).
    pub fn arg(&mut self, element: String) -> (r: &mut Self)
        ensures
            *final(self) == *final(r),
            r.executable == old(self).executable,
            r.args@ == old(self).args@.push(element),
            r.env == old(self).env,
            r.current_dir == old(self).current_dir,
    {
        self.args.push(element);
        self
    }

    /// Appends one environment entry (per-element setter for `env`).
    pub fn env(&mut self, element: String) -> (r: &mut Self)
        ensures
            *final(self) == *final(r),
            r.executable == old(self).executable,
            r.args == old(self).args,
            r.env@ == old(self).env@.push(element),
            r.current_dir == old(self).current_dir,
    {
        self.env.push(element);
        self
    }

    /// Sets the working directory; absence stays a valid final state.
    pub fn current_dir(&mut self, value: String) -> (r: &mut Self)
        ensures
            *final(self) == *final(r),
            r.executable == old(self).executable,
            r.args == old(self).args,
            r.env == old(self).env,
            r.current_dir == Some(value),
    {
        self.current_dir = Some(value);
        self
    }

    /// Constructs the record: succeeds with exactly the accumulated
    /// state if and only if the executable was set, and otherwise fails
    /// naming it. The builder itself is left unchanged.
    pub fn build(&mut self) -> (r: Result<Command, String>)
        ensures
            *final(self) == *old(self),
            old(self).executable matches Some(e) ==> (r matches Ok(c) && c.executable == e
                && c.args@ == old(self).args@ && c.env@ == old(self).env@ && c.current_dir == old(
                self,
            ).current_dir),
            old(self).executable is None ==> (r matches Err(m) && m@
                == "executable is required"@),
    {
        let exe = match &self.executable {
            Some(e) => e.clone(),
            None => {
                return Err("executable is required".to_owned());
            },
        };
        let args = self.args.clone();
        let env = self.env.clone();
        let current_dir = self.current_dir.clone();
        proof {
            assert(args@ =~= self.args@);
            assert(env@ =~= self.env@);
        }
        Ok(Command { executable: exe, args, env, current_dir })
    }
}

} // verus!
