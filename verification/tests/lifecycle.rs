use kugel::buffer::Buffer;
use kugel::command::{DriverCommand, Kind};
use kugel::context::BufferTargets;
use kugel::error::AllocationFailed;
use kugel::program::Program;
use kugel::shader::Shader;
use kugel::vertex_array::{VertexArray, VertexArrayState};
use kugel::Generator;

#[test]
fn null_identifier_is_an_allocation_failure() {
    assert!(matches!(Buffer::from_raw(0), Err(AllocationFailed)));
    assert!(matches!(Shader::from_raw(0), Err(AllocationFailed)));
    assert!(matches!(Program::from_raw(0), Err(AllocationFailed)));
    assert!(matches!(VertexArray::from_raw(0), Err(AllocationFailed)));
}

#[test]
fn handles_report_their_identifier() {
    assert_eq!(Buffer::from_raw(2).unwrap().get_id(), 2);
    assert_eq!(Shader::from_raw(3).unwrap().get_id(), 3);
    assert_eq!(Program::from_raw(4).unwrap().get_id(), 4);
    assert_eq!(VertexArray::from_raw(5).unwrap().get_id(), 5);
}

#[test]
fn destroying_a_valid_handle_issues_one_deletion() {
    let buffer = Buffer::from_raw(2).unwrap();
    assert_eq!(
        buffer.destroy(true),
        Some(DriverCommand::Delete { kind: Kind::Buffer, id: 2 })
    );

    let shader = Shader::from_raw(3).unwrap();
    assert_eq!(
        shader.destroy(true),
        Some(DriverCommand::Delete { kind: Kind::Shader, id: 3 })
    );

    let va = VertexArray::from_raw(5).unwrap();
    assert_eq!(
        va.destroy(true),
        Some(DriverCommand::Delete { kind: Kind::VertexArray, id: 5 })
    );
}

#[test]
fn destroying_an_invalid_handle_issues_nothing() {
    assert_eq!(Buffer::from_raw(2).unwrap().destroy(false), None);
    assert_eq!(Shader::from_raw(3).unwrap().destroy(false), None);
    assert_eq!(VertexArray::from_raw(5).unwrap().destroy(false), None);
    assert_eq!(Program::from_raw(4).unwrap().destroy(false), vec![]);
}

#[test]
fn program_destroy_detaches_every_shader_then_deletes() {
    let mut program = Program::from_raw(10).unwrap();
    for id in [21, 22, 23] {
        let shader = Shader::from_raw(id).unwrap();
        program.attach_finish(&shader, None).unwrap();
    }

    let cmds = program.destroy(true);
    assert_eq!(
        cmds,
        vec![
            DriverCommand::Detach { program: 10, shader: 21 },
            DriverCommand::Detach { program: 10, shader: 22 },
            DriverCommand::Detach { program: 10, shader: 23 },
            DriverCommand::Delete { kind: Kind::Program, id: 10 },
        ]
    );
}

#[test]
fn invalid_program_still_detaches_but_never_deletes() {
    let mut program = Program::from_raw(10).unwrap();
    let shader = Shader::from_raw(21).unwrap();
    program.attach_finish(&shader, None).unwrap();

    let cmds = program.destroy(false);
    assert_eq!(cmds, vec![DriverCommand::Detach { program: 10, shader: 21 }]);
}

#[test]
fn generated_batch_wraps_every_identifier_in_order() {
    let buffers = <Buffer as Generator>::gen(vec![4, 5, 6]).unwrap();
    let ids: Vec<u32> = buffers.iter().map(|b| b.get_id()).collect();
    assert_eq!(ids, vec![4, 5, 6]);
}

#[test]
fn generated_batch_with_a_null_identifier_fails_whole() {
    assert!(matches!(
        <Buffer as Generator>::gen(vec![4, 0, 6]),
        Err(AllocationFailed)
    ));
}

#[test]
fn empty_batch_is_accepted() {
    assert_eq!(<Buffer as Generator>::gen(vec![]).unwrap().len(), 0);
}

#[test]
fn buffer_targets_generate_buffer_handles() {
    let targets = BufferTargets::new();
    assert_eq!(targets.gen_one(8).unwrap().get_id(), 8);
    assert!(matches!(targets.gen_one(0), Err(AllocationFailed)));
    let batch = targets.gen(vec![1, 2]).unwrap();
    assert_eq!(batch.len(), 2);
}

#[test]
fn vertex_array_state_generates_vertex_arrays() {
    let state = VertexArrayState::new();
    assert_eq!(state.gen_one(8).unwrap().get_id(), 8);
    let batch = state.gen(vec![3, 4]).unwrap();
    assert_eq!(batch[1].get_id(), 4);
    assert!(matches!(state.gen(vec![3, 0]), Err(AllocationFailed)));
}
