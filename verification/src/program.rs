use vstd::prelude::*;

verus! {

use crate::command::{delete_command, DriverCommand, Kind};
use crate::error::{AllocationFailed, LogFault};
use crate::shader::Shader;

/// The driver rejected an attach call (kind mismatch, or the shader is
/// already attached).
#[derive(Clone, Copy, Debug, PartialEq, Eq, Structural)]
pub struct AttachShaderError;

/// The driver rejected a detach call (the shader was not attached).
#[derive(Clone, Copy, Debug, PartialEq, Eq, Structural)]
pub struct DetachShaderError;

/// Why a program could not be linked.
#[derive(Debug, PartialEq, Eq)]
pub enum ProgramError {
    /// The driver rejected the link; carries the driver's diagnostic text
    /// verbatim.
    LinkFailed(String),
    /// A status or length query itself failed, with the driver's error code —
    /// distinct from the queried status reporting failure.
    ParamQueryFailed(u32),
    /// The driver's diagnostic text could not be read back.
    InfoLogInvalid,
}

/// Where a composite program stands in its lifecycle.
#[derive(Clone, Copy, Debug, PartialEq, Eq, Structural)]
pub enum LinkState {
    /// Freshly created, not (successfully) linked since.
    Created,
    /// The last link succeeded.
    Linked,
    /// The last link failed.
    LinkFailed,
}

/// The error a failed link reports, given the outcome of the diagnostic log
/// fetch: the log text verbatim when it could be read, the reason it could
/// not otherwise.
pub open spec fn link_failure(log: Result<String, LogFault>) -> ProgramError {
    match log {
        Ok(text) => ProgramError::LinkFailed(text),
        Err(LogFault::QueryFailed(code)) => ProgramError::ParamQueryFailed(code),
        Err(LogFault::NotUtf8) => ProgramError::InfoLogInvalid,
    }
}

/// Keeps every attached identifier other than `target`.
pub open spec fn keeps_other_than(target: u32) -> spec_fn(u32) -> bool {
    |s: u32| s != target
}

/// The detach calls that give up a program's attachments: one per attached
/// shader, in attachment order.
pub open spec fn detach_commands(program: u32, shaders: Seq<u32>) -> Seq<DriverCommand> {
    Seq::new(shaders.len(), |i: int| DriverCommand::Detach { program, shader: shaders[i] })
}

/// The calls issued when a program is destroyed: every still-attached shader
/// is detached first, so no driver-side attachment reference leaks, and the
/// deletion call follows only if the driver still reports the identifier as a
/// live program.
pub open spec fn destroy_commands(program: u32, shaders: Seq<u32>, valid: bool) -> Seq<
    DriverCommand,
> {
    if valid {
        detach_commands(program, shaders).push(
            DriverCommand::Delete { kind: Kind::Program, id: program },
        )
    } else {
        detach_commands(program, shaders)
    }
}

/// An owning handle for one driver-side program object: a composite that
/// holds shaders by attachment and carries the link-state machine.
pub struct Program {
    id: u32,
    attached: Vec<u32>,
    state: LinkState,
}

impl Program {
    /// The driver-assigned identifier this handle owns.
    pub closed spec fn spec_id(self) -> u32 {
        self.id
    }

    /// The identifiers of the attached shaders, in attachment order.
    pub closed spec fn shaders(self) -> Seq<u32> {
        self.attached@
    }

    /// Where the program stands in its link lifecycle.
    pub closed spec fn spec_state(self) -> LinkState {
        self.state
    }

    /// A handle never wraps the null identifier.
    pub open spec fn wf(self) -> bool {
        self.spec_id() != 0
    }

    /// Take ownership of a driver-assigned identifier.  The null identifier
    /// is the driver's failure sentinel and is rejected as an allocation
    /// failure rather than wrapped.
    pub fn from_raw(id: u32) -> (r: Result<Program, AllocationFailed>)
        ensures
            r is Ok <==> id != 0,
            r matches Ok(p) ==> {
                &&& p.spec_id() == id
                &&& p.shaders() == Seq::<u32>::empty()
                &&& p.spec_state() == LinkState::Created
                &&& p.wf()
            },
    {
        if id == 0 {
            Err(AllocationFailed)
        } else {
            Ok(Program { id, attached: Vec::new(), state: LinkState::Created })
        }
    }

    /// The raw identifier, for callers that address the driver directly.
    pub fn get_id(&self) -> (r: u32)
        ensures
            r == self.spec_id(),
    {
        self.id
    }

    /// The attached shader identifiers, for callers that inspect the state.
    pub fn attached_shaders(&self) -> (r: &Vec<u32>)
        ensures
            r@ == self.shaders(),
    {
        &self.attached
    }

    /// Where the program stands, for callers that inspect the state.
    pub fn state(&self) -> (r: LinkState)
        ensures
            r == self.spec_state(),
    {
        self.state
    }

    /// The driver call that attaches `shader` to this program.
    pub fn attach_request(&self, shader: &Shader) -> (c: DriverCommand)
        ensures
            c == (DriverCommand::Attach { program: self.spec_id(), shader: shader.spec_id() }),
    {
        DriverCommand::Attach { program: self.id, shader: shader.get_id() }
    }

    /// Record the driver's verdict on an attach call.  `check` is the
    /// driver's error query after the call: nothing, or the error code.  The
    /// shader joins the attachment list exactly when the driver accepted it.
    pub fn attach_finish(&mut self, shader: &Shader, check: Option<u32>) -> (r: Result<
        (),
        AttachShaderError,
    >)
        ensures
            final(self).spec_id() == old(self).spec_id(),
            final(self).spec_state() == old(self).spec_state(),
            match check {
                None => r is Ok && final(self).shaders() == old(self).shaders().push(
                    shader.spec_id(),
                ),
                Some(_) => r is Err && final(self).shaders() == old(self).shaders(),
            },
    {
        match check {
            None => {
                self.attached.push(shader.get_id());
                Ok(())
            },
            Some(_) => Err(AttachShaderError),
        }
    }

    /// The driver call that detaches `shader` from this program.
    pub fn detach_request(&self, shader: &Shader) -> (c: DriverCommand)
        ensures
            c == (DriverCommand::Detach { program: self.spec_id(), shader: shader.spec_id() }),
    {
        DriverCommand::Detach { program: self.id, shader: shader.get_id() }
    }

    /// Record the driver's verdict on a detach call.  The shader leaves the
    /// attachment list exactly when the driver accepted the call; every
    /// occurrence of its identifier is removed, and the order of the rest is
    /// kept.
    pub fn detach_finish(&mut self, shader: &Shader, check: Option<u32>) -> (r: Result<
        (),
        DetachShaderError,
    >)
        ensures
            final(self).spec_id() == old(self).spec_id(),
            final(self).spec_state() == old(self).spec_state(),
            match check {
                None => r is Ok && final(self).shaders() == old(self).shaders().filter(
                    keeps_other_than(shader.spec_id()),
                ),
                Some(_) => r is Err && final(self).shaders() == old(self).shaders(),
            },
    {
        match check {
            None => {
                self.attached = remove_id(&self.attached, shader.get_id());
                Ok(())
            },
            Some(_) => Err(DetachShaderError),
        }
    }

    /// The driver call that links this program.
    pub fn link_request(&self) -> (c: DriverCommand)
        ensures
            c == (DriverCommand::Link { program: self.spec_id() }),
    {
        DriverCommand::Link { program: self.id }
    }

    /// Decide the outcome of a link from the driver's replies and move the
    /// state machine accordingly.
    ///
    /// `status` is the link-status query: the driver's verdict on the link,
    /// or the error code of a query that itself failed.  `log` is the outcome
    /// of the diagnostic log fetch, consulted only when the verdict is
    /// failure; a failed link reports the driver's text verbatim.
    pub fn link_finish(&mut self, status: Result<bool, u32>, log: Result<String, LogFault>) -> (r:
        Result<(), ProgramError>)
        ensures
            final(self).spec_id() == old(self).spec_id(),
            final(self).shaders() == old(self).shaders(),
            match status {
                Err(code) => {
                    &&& r == Err::<(), ProgramError>(ProgramError::ParamQueryFailed(code))
                    &&& final(self).spec_state() == old(self).spec_state()
                },
                Ok(true) => {
                    &&& r is Ok
                    &&& final(self).spec_state() == LinkState::Linked
                },
                Ok(false) => {
                    &&& r == Err::<(), ProgramError>(link_failure(log))
                    &&& final(self).spec_state() == LinkState::LinkFailed
                },
            },
    {
        match status {
            Err(code) => Err(ProgramError::ParamQueryFailed(code)),
            Ok(true) => {
                self.state = LinkState::Linked;
                Ok(())
            },
            Ok(false) => {
                self.state = LinkState::LinkFailed;
                match log {
                    Ok(text) => Err(ProgramError::LinkFailed(text)),
                    Err(LogFault::QueryFailed(code)) => Err(ProgramError::ParamQueryFailed(code)),
                    Err(LogFault::NotUtf8) => Err(ProgramError::InfoLogInvalid),
                }
            },
        }
    }

    /// Give up the handle: detach every still-attached shader, in attachment
    /// order, then issue the deletion call — the latter only if `valid`, the
    /// driver's own report on whether the identifier still names a live
    /// program.
    pub fn destroy(self, valid: bool) -> (cmds: Vec<DriverCommand>)
        ensures
            cmds@ == destroy_commands(self.spec_id(), self.shaders(), valid),
    {
        let Program { id, attached, state: _ } = self;
        let mut cmds: Vec<DriverCommand> = Vec::new();
        let mut k: usize = 0;
        while k < attached.len()
            invariant
                k <= attached@.len(),
                cmds@.len() == k,
                forall|i: int|
                    0 <= i < k ==> cmds@[i] == (DriverCommand::Detach {
                        program: id,
                        shader: attached@[i],
                    }),
            decreases attached@.len() - k,
        {
            cmds.push(DriverCommand::Detach { program: id, shader: attached[k] });
            k = k + 1;
        }
        if valid {
            cmds.push(DriverCommand::Delete { kind: Kind::Program, id });
        }
        proof {
            assert(cmds@ =~= destroy_commands(id, attached@, valid));
        }
        cmds
    }
}

/// The copy of `v` with every occurrence of `target` removed, order kept.
fn remove_id(v: &Vec<u32>, target: u32) -> (r: Vec<u32>)
    ensures
        r@ == v@.filter(keeps_other_than(target)),
{
    let mut kept: Vec<u32> = Vec::new();
    let mut k: usize = 0;
    while k < v.len()
        invariant
            k <= v@.len(),
            kept@ == v@.take(k as int).filter(keeps_other_than(target)),
        decreases v@.len() - k,
    {
        let s = v[k];
        proof {
            reveal(Seq::filter);
            assert(v@.take(k as int + 1).drop_last() =~= v@.take(k as int));
            assert(v@.take(k as int + 1).last() == v@[k as int]);
        }
        if s != target {
            kept.push(s);
        }
        k = k + 1;
    }
    proof {
        assert(v@.take(v@.len() as int) =~= v@);
    }
    kept
}

/// Destroying a program with N attached shaders issues exactly N detach
/// calls — one per attached shader, in attachment order — followed by exactly
/// one deletion call, and nothing else.
pub proof fn lemma_destroy_detaches_then_deletes(program: u32, shaders: Seq<u32>)
    ensures
        destroy_commands(program, shaders, true).len() == shaders.len() + 1,
        forall|i: int|
            0 <= i < shaders.len() ==> #[trigger] destroy_commands(program, shaders, true)[i]
                == (DriverCommand::Detach { program, shader: shaders[i] }),
        destroy_commands(program, shaders, true)[shaders.len() as int] == (DriverCommand::Delete {
            kind: Kind::Program,
            id: program,
        }),
        forall|i: int|
            0 <= i < shaders.len() ==> !(#[trigger] destroy_commands(program, shaders, true)[i]
                is Delete),
{
}

} // verus!
