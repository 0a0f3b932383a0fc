use gl_raytracer::builder::{Build, Recipe, Stage};
use gl_raytracer::call::{Call, Component, Parameter, Reply, Target, Usage};
use gl_raytracer::gl_wrapper::{ArrayBuffer, Program, Shader, UniformBuffer, VertexArray};

const VERTEX_SHADER: u32 = 0x8B31;
const FRAGMENT_SHADER: u32 = 0x8B30;

/// Answers every stage's calls from `replies`, in order, until the build has
/// finished, and gives the calls that it asked for.
fn drive(mut build: Build, replies: Vec<Reply>) -> (Build, Vec<Call>) {
    let mut calls = Vec::new();
    let mut replies = replies.into_iter();
    while !build.finished() {
        calls.extend(build.calls());
        let reply = replies.next().expect("a reply for each stage");
        assert!(build.admits(&reply));
        build = build.step(reply);
    }
    assert_eq!(replies.next(), None);
    (build, calls)
}

/// The declaration of an attribute of single-precision numbers, taken as
/// they are, from the start of the buffer.
fn attribute(index: u32, components: i32, stride: i32) -> Call {
    Call::VertexAttribPointer {
        index,
        components,
        kind: Component::Float,
        normalized: false,
        stride,
        offset: 0,
    }
}

fn shader(id: u32) -> Shader {
    let (build, _) = drive(
        Shader::from_source(VERTEX_SHADER),
        vec![Reply::Handle(id), Reply::Value(1)],
    );
    Shader::from_build(&build).unwrap()
}

#[test]
fn shader_that_compiles() {
    let build = Shader::from_source(FRAGMENT_SHADER);
    assert_eq!(*build.recipe(), Recipe::Shader { kind: FRAGMENT_SHADER });
    assert_eq!(*build.stage(), Stage::Create);
    assert_eq!(build.calls(), vec![Call::CreateShader { kind: FRAGMENT_SHADER }]);

    let build = build.step(Reply::Handle(7));
    assert_eq!(*build.stage(), Stage::Setup { id: 7 });
    assert_eq!(
        build.calls(),
        vec![
            Call::ShaderSource { shader: 7 },
            Call::CompileShader { shader: 7 },
            Call::GetShaderiv { shader: 7, pname: Parameter::CompileStatus, preset: 1 },
        ]
    );

    let build = build.step(Reply::Value(1));
    assert_eq!(*build.stage(), Stage::Ready { id: 7 });
    assert!(build.finished());
    assert!(build.calls().is_empty());
    assert_eq!(build.made(), Some(7));
    assert_eq!(build.failure(), None);
    assert_eq!(Shader::from_build(&build), Some(Shader { id: 7 }));
}

#[test]
fn shader_status_other_than_zero_is_success() {
    for status in [1, -1, 2, i32::MAX, i32::MIN] {
        let (build, _) = drive(
            Shader::from_source(VERTEX_SHADER),
            vec![Reply::Handle(3), Reply::Value(status)],
        );
        assert_eq!(Shader::from_build(&build), Some(Shader { id: 3 }));
    }
}

#[test]
fn shader_that_does_not_compile() {
    let build = Shader::from_source(VERTEX_SHADER).step(Reply::Handle(4)).step(Reply::Value(0));
    assert_eq!(*build.stage(), Stage::Measure { id: 4 });
    assert!(!build.finished());
    assert_eq!(
        build.calls(),
        vec![Call::GetShaderiv { shader: 4, pname: Parameter::InfoLogLength, preset: 0 }]
    );

    let build = build.step(Reply::Value(18));
    assert_eq!(*build.stage(), Stage::Read { id: 4, capacity: 18 });
    assert_eq!(
        build.calls(),
        vec![Call::GetShaderInfoLog { shader: 4, capacity: 18, length: 17 }]
    );

    let build = build.step(Reply::Log(b"0:1(1): bad token".to_vec()));
    assert_eq!(*build.stage(), Stage::Failed { message: String::from("0:1(1): bad token") });
    assert!(build.finished());
    assert!(build.calls().is_empty());
    assert_eq!(build.made(), None);
    assert_eq!(build.failure(), Some(&String::from("0:1(1): bad token")));
    assert_eq!(Shader::from_build(&build), None);
}

#[test]
fn log_of_one_byte_is_read_as_empty() {
    let build = Shader::from_source(VERTEX_SHADER).step(Reply::Handle(4)).step(Reply::Value(0));
    let build = build.step(Reply::Value(1));
    assert_eq!(
        build.calls(),
        vec![Call::GetShaderInfoLog { shader: 4, capacity: 1, length: 0 }]
    );
    let build = build.step(Reply::Log(Vec::new()));
    assert_eq!(build.failure(), Some(&String::new()));
}

#[test]
fn longest_log_is_read() {
    let build = Shader::from_source(VERTEX_SHADER).step(Reply::Handle(4)).step(Reply::Value(0));
    let build = build.step(Reply::Value(i32::MAX));
    assert_eq!(
        build.calls(),
        vec![Call::GetShaderInfoLog { shader: 4, capacity: i32::MAX, length: 0x7FFF_FFFE }]
    );
}

#[test]
fn log_without_a_byte_is_not_admitted() {
    let build = Shader::from_source(VERTEX_SHADER).step(Reply::Handle(4)).step(Reply::Value(0));
    assert!(!build.admits(&Reply::Value(0)));
    assert!(!build.admits(&Reply::Value(-1)));
    assert!(!build.admits(&Reply::Value(i32::MIN)));
    assert!(build.admits(&Reply::Value(1)));
    assert!(build.admits(&Reply::Nothing));
    assert!(build.admits(&Reply::Handle(0)));
    assert!(build.admits(&Reply::Log(Vec::new())));
}

#[test]
fn every_reply_is_admitted_but_for_a_length() {
    let build = Shader::from_source(VERTEX_SHADER);
    assert!(build.admits(&Reply::Value(0)));
    let build = build.step(Reply::Handle(4));
    assert!(build.admits(&Reply::Value(0)));
    assert!(build.admits(&Reply::Value(-5)));
    let build = build.step(Reply::Value(1));
    assert!(build.admits(&Reply::Value(0)));
}

#[test]
fn message_replaces_what_is_not_utf8() {
    let (build, _) = drive(
        Shader::from_source(VERTEX_SHADER),
        vec![
            Reply::Handle(1),
            Reply::Value(0),
            Reply::Value(8),
            Reply::Log(vec![b'e', b'r', b'r', 0xFF, b'o', 0xC3, 0xA9]),
        ],
    );
    assert_eq!(build.failure(), Some(&String::from("err\u{FFFD}o\u{e9}")));
}

#[test]
fn message_keeps_a_zero_byte() {
    let (build, _) = drive(
        Shader::from_source(VERTEX_SHADER),
        vec![Reply::Handle(1), Reply::Value(0), Reply::Value(4), Reply::Log(vec![b'a', 0, b'b'])],
    );
    assert_eq!(build.failure(), Some(&String::from("a\0b")));
}

#[test]
fn program_that_links() {
    let shaders = [shader(11), shader(12)];
    let build = Program::from_shaders(&shaders);
    assert_eq!(*build.recipe(), Recipe::Program { shaders: vec![11, 12] });
    assert_eq!(*build.stage(), Stage::Create);
    assert_eq!(build.calls(), vec![Call::CreateProgram]);

    let build = build.step(Reply::Handle(20));
    assert_eq!(
        build.calls(),
        vec![
            Call::AttachShader { program: 20, shader: 11 },
            Call::AttachShader { program: 20, shader: 12 },
            Call::LinkProgram { program: 20 },
            Call::GetProgramiv { program: 20, pname: Parameter::LinkStatus, preset: 1 },
        ]
    );

    let build = build.step(Reply::Value(1));
    assert_eq!(*build.stage(), Stage::Cleanup { id: 20 });
    assert!(!build.finished());
    assert_eq!(Program::from_build(&build), None);
    assert_eq!(
        build.calls(),
        vec![
            Call::DetachShader { program: 20, shader: 11 },
            Call::DetachShader { program: 20, shader: 12 },
        ]
    );

    let build = build.step(Reply::Nothing);
    assert_eq!(*build.stage(), Stage::Ready { id: 20 });
    assert_eq!(Program::from_build(&build), Some(Program { id: 20 }));
}

#[test]
fn program_that_does_not_link() {
    let shaders = [shader(11), shader(12)];
    let (build, calls) = drive(
        Program::from_shaders(&shaders),
        vec![
            Reply::Handle(20),
            Reply::Value(0),
            Reply::Value(13),
            Reply::Log(b"no main here".to_vec()),
        ],
    );
    assert_eq!(
        calls,
        vec![
            Call::CreateProgram,
            Call::AttachShader { program: 20, shader: 11 },
            Call::AttachShader { program: 20, shader: 12 },
            Call::LinkProgram { program: 20 },
            Call::GetProgramiv { program: 20, pname: Parameter::LinkStatus, preset: 1 },
            Call::GetProgramiv { program: 20, pname: Parameter::InfoLogLength, preset: 0 },
            Call::GetProgramInfoLog { program: 20, capacity: 13, length: 12 },
        ]
    );
    assert_eq!(build.failure(), Some(&String::from("no main here")));
    assert_eq!(Program::from_build(&build), None);
}

#[test]
fn program_of_no_shaders() {
    let (build, calls) = drive(
        Program::from_shaders(&[]),
        vec![Reply::Handle(5), Reply::Value(1), Reply::Nothing],
    );
    assert_eq!(
        calls,
        vec![
            Call::CreateProgram,
            Call::LinkProgram { program: 5 },
            Call::GetProgramiv { program: 5, pname: Parameter::LinkStatus, preset: 1 },
        ]
    );
    assert_eq!(Program::from_build(&build), Some(Program { id: 5 }));
}

#[test]
fn program_of_one_shader_twice() {
    let shaders = [shader(9), shader(9), shader(2)];
    let (_, calls) = drive(
        Program::from_shaders(&shaders),
        vec![Reply::Handle(1), Reply::Value(1), Reply::Nothing],
    );
    assert_eq!(
        calls,
        vec![
            Call::CreateProgram,
            Call::AttachShader { program: 1, shader: 9 },
            Call::AttachShader { program: 1, shader: 9 },
            Call::AttachShader { program: 1, shader: 2 },
            Call::LinkProgram { program: 1 },
            Call::GetProgramiv { program: 1, pname: Parameter::LinkStatus, preset: 1 },
            Call::DetachShader { program: 1, shader: 9 },
            Call::DetachShader { program: 1, shader: 9 },
            Call::DetachShader { program: 1, shader: 2 },
        ]
    );
}

#[test]
fn array_buffer_is_filled_and_unbound() {
    let build = ArrayBuffer::new(48);
    assert_eq!(*build.recipe(), Recipe::ArrayBuffer { size: 48 });
    let (build, calls) = drive(build, vec![Reply::Handle(2), Reply::Nothing]);
    assert_eq!(
        calls,
        vec![
            Call::GenBuffers,
            Call::BindBuffer { target: Target::ArrayBuffer, buffer: 2 },
            Call::BufferData { target: Target::ArrayBuffer, size: 48, usage: Usage::StaticDraw },
            Call::BindBuffer { target: Target::ArrayBuffer, buffer: 0 },
        ]
    );
    assert_eq!(ArrayBuffer::from_build(&build), Some(ArrayBuffer { id: 2 }));
    assert_eq!(UniformBuffer::from_build(&build), None);
}

#[test]
fn uniform_buffer_is_filled_unbound_and_bound_to_its_block() {
    let build = UniformBuffer::new(3, 336);
    assert_eq!(*build.recipe(), Recipe::UniformBuffer { index: 3, size: 336 });
    let (build, calls) = drive(build, vec![Reply::Handle(6), Reply::Nothing]);
    assert_eq!(
        calls,
        vec![
            Call::GenBuffers,
            Call::BindBuffer { target: Target::UniformBuffer, buffer: 6 },
            Call::BufferData { target: Target::UniformBuffer, size: 336, usage: Usage::StaticDraw },
            Call::BindBuffer { target: Target::UniformBuffer, buffer: 0 },
            Call::BindBufferBase { target: Target::UniformBuffer, index: 3, buffer: 6 },
        ]
    );
    assert_eq!(UniformBuffer::from_build(&build), Some(UniformBuffer { id: 6 }));
    assert_eq!(ArrayBuffer::from_build(&build), None);
}

#[test]
fn vertex_array_enables_attribute_zero() {
    let build = VertexArray::new(2, 3, 12, 8);
    assert_eq!(
        *build.recipe(),
        Recipe::VertexArray { index: 2, components: 3, stride: 12, vbo: 8 }
    );
    let (build, calls) = drive(build, vec![Reply::Handle(1), Reply::Nothing]);
    assert_eq!(
        calls,
        vec![
            Call::GenVertexArrays,
            Call::BindVertexArray { array: 1 },
            Call::BindBuffer { target: Target::ArrayBuffer, buffer: 8 },
            Call::EnableVertexAttribArray { index: 0 },
            attribute(2, 3, 12),
            Call::BindBuffer { target: Target::ArrayBuffer, buffer: 0 },
            Call::BindVertexArray { array: 0 },
        ]
    );
    assert_eq!(VertexArray::from_build(&build), Some(VertexArray { id: 1 }));
}

#[test]
fn sizes_are_cut_to_the_width_of_the_call() {
    let (_, calls) = drive(ArrayBuffer::new(usize::MAX), vec![Reply::Handle(2), Reply::Nothing]);
    assert_eq!(calls[2], Call::BufferData { target: Target::ArrayBuffer, size: -1, usage: Usage::StaticDraw });

    let (_, calls) =
        drive(UniformBuffer::new(0, isize::MAX as usize + 1), vec![Reply::Handle(2), Reply::Nothing]);
    assert_eq!(calls[2], Call::BufferData { target: Target::UniformBuffer, size: isize::MIN, usage: Usage::StaticDraw });

    let (_, calls) = drive(
        VertexArray::new(0, 2, 0x8000_0000, 1),
        vec![Reply::Handle(2), Reply::Nothing],
    );
    assert_eq!(calls[4], attribute(0, 2, i32::MIN));

    let (_, calls) = drive(
        VertexArray::new(0, 2, 0xFFFF_FFFF, 1),
        vec![Reply::Handle(2), Reply::Nothing],
    );
    assert_eq!(calls[4], attribute(0, 2, -1));
}

#[test]
fn buffer_has_no_status() {
    let build = ArrayBuffer::new(8).step(Reply::Handle(2));
    let build = build.step(Reply::Value(0));
    assert_eq!(*build.stage(), Stage::Setup { id: 2 });
    let build = build.step(Reply::Value(1));
    assert_eq!(*build.stage(), Stage::Setup { id: 2 });
    let build = build.step(Reply::Nothing);
    assert_eq!(*build.stage(), Stage::Ready { id: 2 });
}

#[test]
fn reply_of_another_kind_changes_nothing() {
    let build = Shader::from_source(VERTEX_SHADER);
    let build = build.step(Reply::Nothing);
    assert_eq!(*build.stage(), Stage::Create);
    let build = build.step(Reply::Value(1));
    assert_eq!(*build.stage(), Stage::Create);
    let build = build.step(Reply::Log(vec![1]));
    assert_eq!(*build.stage(), Stage::Create);

    let build = build.step(Reply::Handle(1));
    let build = build.step(Reply::Nothing);
    assert_eq!(*build.stage(), Stage::Setup { id: 1 });
    let build = build.step(Reply::Handle(2));
    assert_eq!(*build.stage(), Stage::Setup { id: 1 });

    let build = build.step(Reply::Value(0));
    let build = build.step(Reply::Log(vec![1]));
    assert_eq!(*build.stage(), Stage::Measure { id: 1 });

    let build = build.step(Reply::Value(3));
    let build = build.step(Reply::Value(3));
    assert_eq!(*build.stage(), Stage::Read { id: 1, capacity: 3 });
    assert_eq!(*build.recipe(), Recipe::Shader { kind: VERTEX_SHADER });
}

#[test]
fn finished_build_stays() {
    let (build, _) = drive(ArrayBuffer::new(8), vec![Reply::Handle(2), Reply::Nothing]);
    for reply in [Reply::Nothing, Reply::Handle(9), Reply::Value(0), Reply::Log(vec![65])] {
        let next = drive(ArrayBuffer::new(8), vec![Reply::Handle(2), Reply::Nothing]).0.step(reply);
        assert_eq!(next.stage(), build.stage());
    }

    let failed = vec![Reply::Handle(1), Reply::Value(0), Reply::Value(2), Reply::Log(vec![65])];
    for reply in [Reply::Nothing, Reply::Handle(9), Reply::Value(0), Reply::Log(vec![66])] {
        let next = drive(Shader::from_source(VERTEX_SHADER), failed.clone()).0.step(reply);
        assert_eq!(*next.stage(), Stage::Failed { message: String::from("A") });
    }
}

#[test]
fn no_build_takes_more_than_four_replies() {
    let failing = vec![Reply::Handle(1), Reply::Value(0), Reply::Value(2), Reply::Log(vec![65])];
    let (build, _) = drive(Program::from_shaders(&[shader(1)]), failing.clone());
    assert!(build.finished());
    let (build, _) = drive(Shader::from_source(VERTEX_SHADER), failing);
    assert!(build.finished());
    let (build, _) = drive(
        Program::from_shaders(&[shader(1)]),
        vec![Reply::Handle(1), Reply::Value(1), Reply::Nothing],
    );
    assert!(build.finished());
}

#[test]
fn build_of_a_name_of_zero_goes_on() {
    let (build, calls) = drive(
        Shader::from_source(VERTEX_SHADER),
        vec![Reply::Handle(0), Reply::Value(1)],
    );
    assert_eq!(calls[1], Call::ShaderSource { shader: 0 });
    assert_eq!(Shader::from_build(&build), Some(Shader { id: 0 }));
}

#[test]
fn from_build_tells_the_kinds_apart() {
    let (build, _) = drive(
        Shader::from_source(VERTEX_SHADER),
        vec![Reply::Handle(3), Reply::Value(1)],
    );
    assert_eq!(Shader::from_build(&build), Some(Shader { id: 3 }));
    assert_eq!(Program::from_build(&build), None);
    assert_eq!(ArrayBuffer::from_build(&build), None);
    assert_eq!(UniformBuffer::from_build(&build), None);
    assert_eq!(VertexArray::from_build(&build), None);

    let (build, _) = drive(VertexArray::new(0, 2, 8, 1), vec![Reply::Handle(3), Reply::Nothing]);
    assert_eq!(Shader::from_build(&build), None);
    assert_eq!(VertexArray::from_build(&build), Some(VertexArray { id: 3 }));
}

#[test]
fn from_build_waits_for_the_end() {
    let build = ArrayBuffer::new(8);
    assert_eq!(ArrayBuffer::from_build(&build), None);
    let build = build.step(Reply::Handle(2));
    assert_eq!(ArrayBuffer::from_build(&build), None);
    assert_eq!(build.made(), None);
}

#[test]
fn new_build_starts_with_the_creation() {
    let build = Build::new(Recipe::UniformBuffer { index: 1, size: 2 });
    assert_eq!(*build.stage(), Stage::Create);
    assert_eq!(build.calls(), vec![Call::GenBuffers]);
    assert!(!build.finished());
}

#[test]
fn objects_name_the_calls_that_use_and_delete_them() {
    assert_eq!(Program { id: 4 }.use_program(), Call::UseProgram { program: 4 });
    assert_eq!(Program { id: 4 }.delete(), Call::DeleteProgram { program: 4 });
    assert_eq!(Shader { id: 5 }.delete(), Call::DeleteShader { shader: 5 });
    assert_eq!(ArrayBuffer { id: 6 }.delete(), Call::DeleteBuffers { buffer: 6 });
    assert_eq!(UniformBuffer { id: 7 }.delete(), Call::DeleteBuffers { buffer: 7 });
    assert_eq!(VertexArray { id: 8 }.delete(), Call::DeleteVertexArrays { array: 8 });
}

#[test]
fn vertex_array_is_let_go_without_its_buffer() {
    let (build, _) = drive(VertexArray::new(0, 2, 8, 5), vec![Reply::Handle(5), Reply::Nothing]);
    let array = VertexArray::from_build(&build).unwrap();
    assert_eq!(array.delete(), Call::DeleteVertexArrays { array: 5 });
    assert_ne!(array.delete(), Call::DeleteBuffers { buffer: 5 });
    assert_ne!(array.delete(), ArrayBuffer { id: 5 }.delete());
}
