use kugel::buffer::Buffer;
use kugel::command::{DriverCommand, Slot};
use kugel::context::Context;
use kugel::error::UsageViolation;
use kugel::vertex_array::{
    BindVertexArrayError, VertexArray, VertexArrayState, VertexNotBoundError,
};

#[test]
fn attribute_calls_go_through_the_binding_token() {
    let va = VertexArray::from_raw(9).unwrap();
    let mut state = VertexArrayState::new();

    let (mut token, _) = state.bind(&va).unwrap();
    assert_eq!(token.enable_attrib(2), DriverCommand::EnableAttrib { index: 2 });
    assert_eq!(token.disable_attrib(2), DriverCommand::DisableAttrib { index: 2 });
    state.unbind(token);
}

#[test]
fn releasing_the_token_issues_exactly_one_unbind() {
    let va = VertexArray::from_raw(9).unwrap();
    let mut state = VertexArrayState::new();
    let mut issued: Vec<DriverCommand> = Vec::new();

    let (token, bind_cmd) = state.bind(&va).unwrap();
    issued.push(bind_cmd);
    issued.push(state.unbind(token));

    let unbinds = issued
        .iter()
        .filter(|c| matches!(c, DriverCommand::BindNull { slot: Slot::VertexArray }))
        .count();
    assert_eq!(unbinds, 1);
}

#[test]
fn second_bind_while_a_token_is_alive_is_rejected() {
    let first = VertexArray::from_raw(9).unwrap();
    let second = VertexArray::from_raw(10).unwrap();
    let mut state = VertexArrayState::new();

    let (token, _) = state.bind(&first).unwrap();
    assert_eq!(state.bind(&second).unwrap_err(), BindVertexArrayError);
    assert_eq!(state.bound(), Some(9));
    state.unbind(token);
}

#[test]
fn state_attribute_calls_need_a_bound_vertex_array() {
    let va = VertexArray::from_raw(9).unwrap();
    let mut state = VertexArrayState::new();

    assert_eq!(state.enable_attrib(1), Err(VertexNotBoundError));
    assert_eq!(state.disable_attrib(1), Err(VertexNotBoundError));

    let (token, _) = state.bind(&va).unwrap();
    assert_eq!(state.enable_attrib(1), Ok(DriverCommand::EnableAttrib { index: 1 }));
    assert_eq!(state.disable_attrib(1), Ok(DriverCommand::DisableAttrib { index: 1 }));
    state.unbind(token);
}

#[test]
fn direct_attribute_calls_name_the_vertex_array() {
    let va = VertexArray::from_raw(9).unwrap();
    assert_eq!(
        va.enable_attrib(3),
        DriverCommand::EnableArrayAttrib { array: 9, index: 3 }
    );
    assert_eq!(
        va.disable_attrib(3),
        DriverCommand::DisableArrayAttrib { array: 9, index: 3 }
    );
}

#[test]
fn buffer_data_needs_a_bound_buffer() {
    let mut cx = Context::new();
    assert_eq!(cx.buffers.array.buffer_data(6, 1), Err(UsageViolation::NotBound));

    let buffer = Buffer::from_raw(7).unwrap();
    cx.buffers.array.bind(&buffer).unwrap();
    assert_eq!(
        cx.buffers.array.buffer_data(6, 1),
        Ok(DriverCommand::BufferData { slot: Slot::ArrayBuffer, byte_len: 24, usage: 1 })
    );
}
