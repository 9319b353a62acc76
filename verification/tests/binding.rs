use kugel::buffer::Buffer;
use kugel::command::{DriverCommand, Slot};
use kugel::context::{ArrayBufferTarget, BindBufferError, Context};
use kugel::error::UsageViolation;
use kugel::program::Program;
use kugel::state_program::{StateProgram, UseProgramError};
use kugel::tracker::BindingTracker;
use kugel::vertex_array::{VertexArray, VertexArrayState};

#[test]
fn tracker_reports_a_double_bind_as_already_bound() {
    let mut tracker = BindingTracker::new(Slot::ArrayBuffer);
    assert_eq!(
        tracker.bind(5),
        Ok(DriverCommand::Bind { slot: Slot::ArrayBuffer, id: 5 })
    );
    assert_eq!(tracker.bind(6), Err(UsageViolation::AlreadyBound));
    assert_eq!(tracker.bound(), Some(5));
}

#[test]
fn bind_reports_the_driver_call() {
    let buffer = Buffer::from_raw(7).unwrap();
    let mut target = ArrayBufferTarget::new();
    let cmd = target.bind(&buffer).unwrap();
    assert_eq!(cmd, DriverCommand::Bind { slot: Slot::ArrayBuffer, id: 7 });
    assert_eq!(target.bound(), Some(7));
}

#[test]
fn bind_then_unbind_restarts_identically() {
    let buffer = Buffer::from_raw(3).unwrap();
    let mut target = ArrayBufferTarget::new();

    let first = target.bind(&buffer).unwrap();
    let null = target.unbind();
    assert_eq!(target.bound(), None);
    assert_eq!(null, Some(DriverCommand::BindNull { slot: Slot::ArrayBuffer }));

    let second = target.bind(&buffer).unwrap();
    assert_eq!(first, second);
    assert_eq!(target.bound(), Some(3));
}

#[test]
fn double_bind_is_rejected_and_keeps_the_first() {
    let first = Buffer::from_raw(3).unwrap();
    let second = Buffer::from_raw(4).unwrap();
    let mut target = ArrayBufferTarget::new();

    target.bind(&first).unwrap();
    assert_eq!(target.bind(&second), Err(BindBufferError));
    assert_eq!(target.bound(), Some(3));
}

#[test]
fn unbind_when_unbound_issues_nothing() {
    let mut target = ArrayBufferTarget::new();
    assert_eq!(target.unbind(), None);
    assert_eq!(target.bound(), None);
}

#[test]
fn using_and_unuse_mirror_the_active_program() {
    let program = Program::from_raw(11).unwrap();
    let mut state = StateProgram::new();

    let cmd = state.using(&program).unwrap();
    assert_eq!(cmd, DriverCommand::Bind { slot: Slot::ActiveProgram, id: 11 });
    assert_eq!(state.used(), Some(11));

    let null = state.unuse();
    assert_eq!(null, Some(DriverCommand::BindNull { slot: Slot::ActiveProgram }));
    assert_eq!(state.used(), None);
}

#[test]
fn using_twice_is_rejected() {
    let first = Program::from_raw(11).unwrap();
    let second = Program::from_raw(12).unwrap();
    let mut state = StateProgram::new();

    state.using(&first).unwrap();
    assert_eq!(state.using(&second), Err(UseProgramError));
    assert_eq!(state.used(), Some(11));
}

#[test]
fn unuse_without_a_program_issues_nothing() {
    let mut state = StateProgram::new();
    assert_eq!(state.unuse(), None);
}

#[test]
fn vertex_array_slot_restarts_after_unbind() {
    let va = VertexArray::from_raw(9).unwrap();
    let mut state = VertexArrayState::new();

    let (token, cmd) = state.bind(&va).unwrap();
    assert_eq!(cmd, DriverCommand::Bind { slot: Slot::VertexArray, id: 9 });
    assert_eq!(state.bound(), Some(9));

    let null = state.unbind(token);
    assert_eq!(null, DriverCommand::BindNull { slot: Slot::VertexArray });
    assert_eq!(state.bound(), None);

    let (token, again) = state.bind(&va).unwrap();
    assert_eq!(again, DriverCommand::Bind { slot: Slot::VertexArray, id: 9 });
    state.unbind(token);
}

#[test]
fn fresh_context_has_every_slot_unbound() {
    let cx = Context::new();
    assert_eq!(cx.buffers.array.bound(), None);
    assert_eq!(cx.buffers.element_array.bound(), None);
    assert_eq!(cx.program.used(), None);
    assert_eq!(cx.vertex_array.bound(), None);
}

#[test]
fn element_array_target_binds_its_own_slot() {
    let buffer = Buffer::from_raw(5).unwrap();
    let mut cx = Context::new();
    let cmd = cx.buffers.element_array.bind(&buffer).unwrap();
    assert_eq!(cmd, DriverCommand::Bind { slot: Slot::ElementArrayBuffer, id: 5 });
    assert_eq!(cx.buffers.array.bound(), None);
}
