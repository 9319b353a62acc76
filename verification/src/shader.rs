use vstd::prelude::*;

verus! {

use crate::command::{delete_command, DriverCommand, Kind};
use crate::error::{AllocationFailed, LogFault, UsageViolation};

/// Why a shader could not be compiled.
#[derive(Debug, PartialEq, Eq)]
pub enum ShaderError {
    /// The driver rejected the source; carries the driver's diagnostic text
    /// verbatim.
    CompileFailed(String),
    /// A status or length query itself failed, with the driver's error code —
    /// distinct from the queried status reporting failure.
    ParamQueryFailed(u32),
    /// The driver's diagnostic text could not be read back.
    InfoLogInvalid,
}

/// Where a single compilation unit stands in its lifecycle.
#[derive(Clone, Copy, Debug, PartialEq, Eq, Structural)]
pub enum ShaderState {
    /// Freshly created, no source text yet.
    Created,
    /// Source text set, not (successfully) compiled since.
    SourceSet,
    /// The last compile succeeded.
    Compiled,
    /// The last compile failed.
    CompileFailed,
}

/// The error a failed compile reports, given the outcome of the diagnostic
/// log fetch: the log text verbatim when it could be read, the reason it
/// could not otherwise.
pub open spec fn compile_failure(log: Result<String, LogFault>) -> ShaderError {
    match log {
        Ok(text) => ShaderError::CompileFailed(text),
        Err(LogFault::QueryFailed(code)) => ShaderError::ParamQueryFailed(code),
        Err(LogFault::NotUtf8) => ShaderError::InfoLogInvalid,
    }
}

/// An owning handle for one driver-side shader object, carrying the
/// compile-state machine of a single compilation unit.
pub struct Shader {
    id: u32,
    state: ShaderState,
}

impl Shader {
    /// The driver-assigned identifier this handle owns.
    pub closed spec fn spec_id(self) -> u32 {
        self.id
    }

    /// Where the shader stands in its compile lifecycle.
    pub closed spec fn spec_state(self) -> ShaderState {
        self.state
    }

    /// A handle never wraps the null identifier.
    pub open spec fn wf(self) -> bool {
        self.spec_id() != 0
    }

    /// Take ownership of a driver-assigned identifier.  The null identifier
    /// is the driver's failure sentinel and is rejected as an allocation
    /// failure rather than wrapped.
    pub fn from_raw(id: u32) -> (r: Result<Shader, AllocationFailed>)
        ensures
            r is Ok <==> id != 0,
            r matches Ok(s) ==> s.spec_id() == id && s.spec_state() == ShaderState::Created
                && s.wf(),
    {
        if id == 0 {
            Err(AllocationFailed)
        } else {
            Ok(Shader { id, state: ShaderState::Created })
        }
    }

    /// The raw identifier, for callers that address the driver directly.
    pub fn get_id(&self) -> (r: u32)
        ensures
            r == self.spec_id(),
    {
        self.id
    }

    /// Where the shader stands, for callers that inspect the state.
    pub fn state(&self) -> (r: ShaderState)
        ensures
            r == self.spec_state(),
    {
        self.state
    }

    /// Record new source text and return the driver call that sets it.
    pub fn set_source(&mut self, source: &str) -> (c: DriverCommand)
        ensures
            final(self).spec_id() == old(self).spec_id(),
            final(self).spec_state() == ShaderState::SourceSet,
            c matches DriverCommand::SetSource { shader, source: text } ==> shader == old(
                self,
            ).spec_id() && text@ == source@,
            c is SetSource,
    {
        self.state = ShaderState::SourceSet;
        DriverCommand::SetSource { shader: self.id, source: source.to_owned() }
    }

    /// The driver call that compiles the shader, or a usage violation when no
    /// source text was ever set: compiling nothing is a programming error,
    /// not a driver failure.
    pub fn compile_request(&self) -> (r: Result<DriverCommand, UsageViolation>)
        ensures
            r is Ok <==> self.spec_state() != ShaderState::Created,
            r matches Ok(c) ==> c == (DriverCommand::Compile { shader: self.spec_id() }),
            r matches Err(v) ==> v == UsageViolation::NoSource,
    {
        match self.state {
            ShaderState::Created => Err(UsageViolation::NoSource),
            _ => Ok(DriverCommand::Compile { shader: self.id }),
        }
    }

    /// Decide the outcome of a compile from the driver's replies and move the
    /// state machine accordingly.
    ///
    /// `status` is the compile-status query: the driver's verdict on the
    /// compile, or the error code of a query that itself failed.  `log` is
    /// the outcome of the diagnostic log fetch, consulted only when the
    /// verdict is failure; a failed compile reports the driver's text
    /// verbatim.
    pub fn compile_finish(&mut self, status: Result<bool, u32>, log: Result<String, LogFault>) -> (r:
        Result<(), ShaderError>)
        ensures
            final(self).spec_id() == old(self).spec_id(),
            match status {
                Err(code) => {
                    &&& r == Err::<(), ShaderError>(ShaderError::ParamQueryFailed(code))
                    &&& final(self).spec_state() == old(self).spec_state()
                },
                Ok(true) => {
                    &&& r is Ok
                    &&& final(self).spec_state() == ShaderState::Compiled
                },
                Ok(false) => {
                    &&& r == Err::<(), ShaderError>(compile_failure(log))
                    &&& final(self).spec_state() == ShaderState::CompileFailed
                },
            },
    {
        match status {
            Err(code) => Err(ShaderError::ParamQueryFailed(code)),
            Ok(true) => {
                self.state = ShaderState::Compiled;
                Ok(())
            },
            Ok(false) => {
                self.state = ShaderState::CompileFailed;
                match log {
                    Ok(text) => Err(ShaderError::CompileFailed(text)),
                    Err(LogFault::QueryFailed(code)) => Err(ShaderError::ParamQueryFailed(code)),
                    Err(LogFault::NotUtf8) => Err(ShaderError::InfoLogInvalid),
                }
            },
        }
    }

    /// Give up the handle.  `valid` is the driver's own report on whether the
    /// identifier still names a live shader object; only then is the deletion
    /// call issued, so an identifier is never deleted twice.
    pub fn destroy(self, valid: bool) -> (r: Option<DriverCommand>)
        ensures
            r == delete_command(Kind::Shader, self.spec_id(), valid),
    {
        if valid {
            Some(DriverCommand::Delete { kind: Kind::Shader, id: self.id })
        } else {
            None
        }
    }
}

} // verus!
