//! The making of a graphics object, call by call.
//!
//! An object of the graphics library comes to life by a handful of calls, and
//! what some of them answer decides how to go on: a shader that did not
//! compile has a log to be read, a program that linked has shaders to be
//! detached. A [`Build`] holds where such a making stands. Its
//! [`calls`](Build::calls) are what the driver performs next, in order, and
//! [`step`](Build::step) takes the answer of the last of them.
use crate::call::{Call, Component, Parameter, Reply, ReplyKind, Target, Usage};
use vstd::prelude::*;

verus! {

/// What is being made, and from what.
#[derive(Clone, Debug, PartialEq, Eq)]
pub enum Recipe {
    /// A shader of the given kind, compiled from the driver's source text.
    Shader { kind: u32 },
    /// A program linked from the shaders named.
    Program { shaders: Vec<u32> },
    /// A buffer of vertex attributes, filled with `size` bytes.
    ArrayBuffer { size: usize },
    /// A buffer filled with `size` bytes and bound to the uniform block
    /// binding `index`.
    UniformBuffer { index: u32, size: usize },
    /// A vertex array that reads attribute `index` from the buffer `vbo`.
    VertexArray { index: u32, components: i32, stride: usize, vbo: u32 },
}

/// One call that attaches each shader to the program, in order.
pub open spec fn attach_all(program: u32, shaders: Seq<u32>) -> Seq<Call> {
    Seq::new(shaders.len(), |k: int| Call::AttachShader { program, shader: shaders[k] })
}

/// One call that detaches each shader from the program, in order.
pub open spec fn detach_all(program: u32, shaders: Seq<u32>) -> Seq<Call> {
    Seq::new(shaders.len(), |k: int| Call::DetachShader { program, shader: shaders[k] })
}

impl Recipe {
    /// Whether the making can fail: a shader may not compile, a program may
    /// not link.
    pub open spec fn spec_checked(self) -> bool {
        self is Shader || self is Program
    }

    /// The call that creates the object and answers with its name.
    pub open spec fn spec_create(self) -> Call {
        match self {
            Recipe::Shader { kind } => Call::CreateShader { kind },
            Recipe::Program { .. } => Call::CreateProgram,
            Recipe::ArrayBuffer { .. } | Recipe::UniformBuffer { .. } => Call::GenBuffers,
            Recipe::VertexArray { .. } => Call::GenVertexArrays,
        }
    }

    /// The calls that set up the object named `id`. Where the making can
    /// fail, the last of them asks whether it did.
    pub open spec fn spec_setup(self, id: u32) -> Seq<Call> {
        match self {
            Recipe::Shader { .. } => seq![
                Call::ShaderSource { shader: id },
                Call::CompileShader { shader: id },
                Call::GetShaderiv { shader: id, pname: Parameter::CompileStatus, preset: 1 },
            ],
            Recipe::Program { shaders } => attach_all(id, shaders@) + seq![
                Call::LinkProgram { program: id },
                Call::GetProgramiv { program: id, pname: Parameter::LinkStatus, preset: 1 },
            ],
            Recipe::ArrayBuffer { size } => seq![
                Call::BindBuffer { target: Target::ArrayBuffer, buffer: id },
                Call::BufferData {
                    target: Target::ArrayBuffer,
                    size: size as isize,
                    usage: Usage::StaticDraw,
                },
                Call::BindBuffer { target: Target::ArrayBuffer, buffer: 0 },
            ],
            Recipe::UniformBuffer { index, size } => seq![
                Call::BindBuffer { target: Target::UniformBuffer, buffer: id },
                Call::BufferData {
                    target: Target::UniformBuffer,
                    size: size as isize,
                    usage: Usage::StaticDraw,
                },
                Call::BindBuffer { target: Target::UniformBuffer, buffer: 0 },
                Call::BindBufferBase { target: Target::UniformBuffer, index, buffer: id },
            ],
            Recipe::VertexArray { index, components, stride, vbo } => seq![
                Call::BindVertexArray { array: id },
                Call::BindBuffer { target: Target::ArrayBuffer, buffer: vbo },
                Call::EnableVertexAttribArray { index: 0 },
                Call::VertexAttribPointer {
                    index,
                    components,
                    kind: Component::Float,
                    normalized: false,
                    stride: stride as i32,
                    offset: 0,
                },
                Call::BindBuffer { target: Target::ArrayBuffer, buffer: 0 },
                Call::BindVertexArray { array: 0 },
            ],
        }
    }

    /// The calls that follow a making that went well.
    pub open spec fn spec_cleanup(self, id: u32) -> Seq<Call> {
        match self {
            Recipe::Program { shaders } => detach_all(id, shaders@),
            _ => seq![],
        }
    }

    /// The call that asks for the length of the log of the object named `id`.
    pub open spec fn spec_measure(self, id: u32) -> Call {
        match self {
            Recipe::Program { .. } => Call::GetProgramiv {
                program: id,
                pname: Parameter::InfoLogLength,
                preset: 0,
            },
            _ => Call::GetShaderiv { shader: id, pname: Parameter::InfoLogLength, preset: 0 },
        }
    }

    /// The call that reads the log of the object named `id`, where the log
    /// is `capacity` bytes long with its closing zero byte.
    pub open spec fn spec_read(self, id: u32, capacity: i32) -> Call {
        match self {
            Recipe::Program { .. } => Call::GetProgramInfoLog {
                program: id,
                capacity,
                length: (capacity - 1) as usize,
            },
            _ => Call::GetShaderInfoLog { shader: id, capacity, length: (capacity - 1) as usize },
        }
    }

    fn measure(&self, id: u32) -> (call: Call)
        ensures
            call == self.spec_measure(id),
    {
        match self {
            Recipe::Program { .. } => Call::GetProgramiv {
                program: id,
                pname: Parameter::InfoLogLength,
                preset: 0,
            },
            _ => Call::GetShaderiv { shader: id, pname: Parameter::InfoLogLength, preset: 0 },
        }
    }

    fn read(&self, id: u32, capacity: i32) -> (call: Call)
        requires
            capacity >= 1,
        ensures
            call == self.spec_read(id, capacity),
    {
        let length: usize = (capacity - 1) as usize;
        match self {
            Recipe::Program { .. } => Call::GetProgramInfoLog { program: id, capacity, length },
            _ => Call::GetShaderInfoLog { shader: id, capacity, length },
        }
    }

    fn checked(&self) -> (checked: bool)
        ensures
            checked == self.spec_checked(),
    {
        match self {
            Recipe::Shader { .. } | Recipe::Program { .. } => true,
            _ => false,
        }
    }

    fn create(&self) -> (call: Call)
        ensures
            call == self.spec_create(),
    {
        match self {
            Recipe::Shader { kind } => Call::CreateShader { kind: *kind },
            Recipe::Program { .. } => Call::CreateProgram,
            Recipe::ArrayBuffer { .. } | Recipe::UniformBuffer { .. } => Call::GenBuffers,
            Recipe::VertexArray { .. } => Call::GenVertexArrays,
        }
    }

    fn setup(&self, id: u32) -> (calls: Vec<Call>)
        ensures
            calls@ == self.spec_setup(id),
    {
        let mut calls: Vec<Call> = Vec::new();
        match self {
            Recipe::Shader { .. } => {
                calls.push(Call::ShaderSource { shader: id });
                calls.push(Call::CompileShader { shader: id });
                calls.push(Call::GetShaderiv { shader: id, pname: Parameter::CompileStatus, preset: 1 });
            },
            Recipe::Program { shaders } => {
                let mut i: usize = 0;
                while i < shaders.len()
                    invariant
                        i <= shaders@.len(),
                        calls@ == attach_all(id, shaders@.take(i as int)),
                    decreases shaders@.len() - i,
                {
                    calls.push(Call::AttachShader { program: id, shader: shaders[i] });
                    i = i + 1;
                    assert(calls@ =~= attach_all(id, shaders@.take(i as int)));
                }
                assert(shaders@.take(i as int) =~= shaders@);
                calls.push(Call::LinkProgram { program: id });
                calls.push(Call::GetProgramiv { program: id, pname: Parameter::LinkStatus, preset: 1 });
            },
            Recipe::ArrayBuffer { size } => {
                let size = #[verifier::truncate] (*size as isize);
                calls.push(Call::BindBuffer { target: Target::ArrayBuffer, buffer: id });
                calls.push(
                    Call::BufferData { target: Target::ArrayBuffer, size, usage: Usage::StaticDraw },
                );
                calls.push(Call::BindBuffer { target: Target::ArrayBuffer, buffer: 0 });
            },
            Recipe::UniformBuffer { index, size } => {
                let size = #[verifier::truncate] (*size as isize);
                calls.push(Call::BindBuffer { target: Target::UniformBuffer, buffer: id });
                calls.push(
                    Call::BufferData {
                        target: Target::UniformBuffer,
                        size,
                        usage: Usage::StaticDraw,
                    },
                );
                calls.push(Call::BindBuffer { target: Target::UniformBuffer, buffer: 0 });
                calls.push(
                    Call::BindBufferBase { target: Target::UniformBuffer, index: *index, buffer: id },
                );
            },
            Recipe::VertexArray { index, components, stride, vbo } => {
                let stride = #[verifier::truncate] (*stride as i32);
                calls.push(Call::BindVertexArray { array: id });
                calls.push(Call::BindBuffer { target: Target::ArrayBuffer, buffer: *vbo });
                calls.push(Call::EnableVertexAttribArray { index: 0 });
                calls.push(
                    Call::VertexAttribPointer {
                        index: *index,
                        components: *components,
                        kind: Component::Float,
                        normalized: false,
                        stride,
                        offset: 0,
                    },
                );
                calls.push(Call::BindBuffer { target: Target::ArrayBuffer, buffer: 0 });
                calls.push(Call::BindVertexArray { array: 0 });
            },
        }
        assert(calls@ =~= self.spec_setup(id));
        calls
    }

    fn cleanup(&self, id: u32) -> (calls: Vec<Call>)
        ensures
            calls@ == self.spec_cleanup(id),
    {
        let mut calls: Vec<Call> = Vec::new();
        match self {
            Recipe::Program { shaders } => {
                let mut i: usize = 0;
                while i < shaders.len()
                    invariant
                        i <= shaders@.len(),
                        calls@ == detach_all(id, shaders@.take(i as int)),
                    decreases shaders@.len() - i,
                {
                    calls.push(Call::DetachShader { program: id, shader: shaders[i] });
                    i = i + 1;
                    assert(calls@ =~= detach_all(id, shaders@.take(i as int)));
                }
                assert(shaders@.take(i as int) =~= shaders@);
            },
            _ => {},
        }
        assert(calls@ =~= self.spec_cleanup(id));
        calls
    }
}

/// Where a making stands.
#[derive(Clone, Debug, PartialEq, Eq)]
pub enum Stage {
    /// The object is to be created.
    Create,
    /// The object exists and is to be set up.
    Setup { id: u32 },
    /// The making failed, and the length of its log is to be asked for.
    Measure { id: u32 },
    /// The making failed, and its log of `capacity` bytes is to be read.
    Read { id: u32, capacity: i32 },
    /// The making went well, and what it no longer needs is to be let go.
    Cleanup { id: u32 },
    /// The object is made.
    Ready { id: u32 },
    /// The making failed, and this is what the graphics library said of it.
    Failed { message: String },
}

/// The text that `String::from_utf8_lossy` makes of the bytes.
pub uninterp spec fn utf8_lossy(bytes: Seq<u8>) -> Seq<char>;

/// `String::from_utf8_lossy` reads the bytes as UTF-8 and puts U+FFFD in the
/// place of what is none. Bytes that are UTF-8 throughout come out as the text
/// that they encode.
#[verifier::external_body]
fn from_utf8_lossy(bytes: &Vec<u8>) -> (text: String)
    ensures
        text@ == utf8_lossy(bytes@),
        vstd::utf8::valid_utf8(bytes@) ==> text@ == vstd::utf8::decode_utf8(bytes@),
{
    String::from_utf8_lossy(bytes).into_owned()
}

/// The making of one object of the graphics library.
#[derive(Debug)]
pub struct Build {
    recipe: Recipe,
    stage: Stage,
}

impl Build {
    /// A log that is to be read has at least its closing zero byte.
    #[verifier::type_invariant]
    spec fn inv(self) -> bool {
        self.stage matches Stage::Read { capacity, .. } ==> capacity >= 1
    }

    /// What is being made.
    pub closed spec fn spec_recipe(self) -> Recipe {
        self.recipe
    }

    /// Where the making stands.
    pub closed spec fn spec_stage(self) -> Stage {
        self.stage
    }

    /// The calls that are to be performed at this stage, in order.
    pub open spec fn spec_calls(self) -> Seq<Call> {
        match self.spec_stage() {
            Stage::Create => seq![self.spec_recipe().spec_create()],
            Stage::Setup { id } => self.spec_recipe().spec_setup(id),
            Stage::Measure { id } => seq![self.spec_recipe().spec_measure(id)],
            Stage::Read { id, capacity } => seq![self.spec_recipe().spec_read(id, capacity)],
            Stage::Cleanup { id } => self.spec_recipe().spec_cleanup(id),
            Stage::Ready { .. } | Stage::Failed { .. } => seq![],
        }
    }

    /// The kind of reply that the stage waits for: that of the last of its
    /// calls.
    pub open spec fn awaits(self) -> ReplyKind {
        match self.spec_stage() {
            Stage::Create => ReplyKind::Handle,
            Stage::Setup { .. } => if self.spec_recipe().spec_checked() {
                ReplyKind::Value
            } else {
                ReplyKind::Nothing
            },
            Stage::Measure { .. } => ReplyKind::Value,
            Stage::Read { .. } => ReplyKind::Log,
            Stage::Cleanup { .. } | Stage::Ready { .. } | Stage::Failed { .. } => ReplyKind::Nothing,
        }
    }

    /// Whether the making has come to its end, well or not.
    pub open spec fn spec_finished(self) -> bool {
        self.spec_stage() is Ready || self.spec_stage() is Failed
    }

    /// Whether `reply` can be taken at this stage: a log whose length is
    /// asked for has at least its closing zero byte.
    pub open spec fn spec_admits(self, reply: Reply) -> bool {
        self.spec_stage() is Measure ==> match reply {
            Reply::Value(len) => len >= 1,
            _ => true,
        }
    }

    /// Whether `next` is what the making comes to when the calls of this
    /// stage were answered with `reply`.
    ///
    /// The object's name makes way for its setup. After the setup of an
    /// object that cannot fail, the object is made. After that of a shader
    /// or program, a status other than zero leads on, to the cleanup of a
    /// program and to the end for a shader, and a status of zero leads to
    /// the log: its length, then its bytes, whose text is the failure's
    /// message. A reply of another kind than the stage waits for changes
    /// nothing, and neither does any reply once the making has ended.
    pub open spec fn steps_to(self, reply: Reply, next: Build) -> bool {
        &&& next.spec_recipe() == self.spec_recipe()
        &&& match (self.spec_stage(), reply) {
            (Stage::Create, Reply::Handle(id)) => next.spec_stage() == (Stage::Setup { id }),
            (Stage::Setup { id }, Reply::Value(status)) if self.spec_recipe().spec_checked() => {
                if status == 0 {
                    next.spec_stage() == (Stage::Measure { id })
                } else if self.spec_recipe() is Program {
                    next.spec_stage() == (Stage::Cleanup { id })
                } else {
                    next.spec_stage() == (Stage::Ready { id })
                }
            },
            (Stage::Setup { id }, Reply::Nothing) if !self.spec_recipe().spec_checked() => {
                next.spec_stage() == (Stage::Ready { id })
            },
            (Stage::Measure { id }, Reply::Value(len)) => {
                next.spec_stage() == (Stage::Read { id, capacity: len })
            },
            (Stage::Read { .. }, Reply::Log(bytes)) => {
                &&& next.spec_stage() is Failed
                &&& next.spec_stage()->message@ == utf8_lossy(bytes@)
                &&& vstd::utf8::valid_utf8(bytes@) ==> next.spec_stage()->message@
                    == vstd::utf8::decode_utf8(bytes@)
            },
            (Stage::Cleanup { id }, Reply::Nothing) => next.spec_stage() == (Stage::Ready { id }),
            _ => next.spec_stage() == self.spec_stage(),
        }
    }

    /// The number of replies after which the making has ended at the latest.
    pub open spec fn remaining(self) -> nat {
        match self.spec_stage() {
            Stage::Create => 4,
            Stage::Setup { .. } => 3,
            Stage::Measure { .. } => 2,
            Stage::Read { .. } | Stage::Cleanup { .. } => 1,
            Stage::Ready { .. } | Stage::Failed { .. } => 0,
        }
    }

    /// The name of the object, once it is made.
    pub open spec fn spec_made(self) -> Option<u32> {
        match self.spec_stage() {
            Stage::Ready { id } => Some(id),
            _ => None,
        }
    }

    /// What the graphics library said of the failure, once the making has
    /// failed.
    pub open spec fn spec_failure(self) -> Option<Seq<char>> {
        match self.spec_stage() {
            Stage::Failed { message } => Some(message@),
            _ => None,
        }
    }

    /// The making of what `recipe` describes, before its first call.
    pub fn new(recipe: Recipe) -> (build: Build)
        ensures
            build.spec_recipe() == recipe,
            build.spec_stage() == Stage::Create,
    {
        Build { recipe, stage: Stage::Create }
    }

    pub fn recipe(&self) -> (recipe: &Recipe)
        ensures
            *recipe == self.spec_recipe(),
    {
        &self.recipe
    }

    pub fn stage(&self) -> (stage: &Stage)
        ensures
            *stage == self.spec_stage(),
    {
        &self.stage
    }

    /// The name of the object, once it is made.
    pub fn made(&self) -> (made: Option<u32>)
        ensures
            made == self.spec_made(),
    {
        match &self.stage {
            Stage::Ready { id } => Some(*id),
            _ => None,
        }
    }

    /// What the graphics library said of the failure, once the making has
    /// failed.
    pub fn failure(&self) -> (failure: Option<&String>)
        ensures
            failure.is_some() == self.spec_failure().is_some(),
            failure matches Some(message) ==> self.spec_failure() == Some(message@),
    {
        match &self.stage {
            Stage::Failed { message } => Some(message),
            _ => None,
        }
    }

    /// The calls that are to be performed at this stage, in order.
    pub fn calls(&self) -> (calls: Vec<Call>)
        ensures
            calls@ == self.spec_calls(),
    {
        proof {
            use_type_invariant(self);
        }
        match &self.stage {
            Stage::Create => {
                let mut calls: Vec<Call> = Vec::new();
                calls.push(self.recipe.create());
                assert(calls@ =~= self.spec_calls());
                calls
            },
            Stage::Setup { id } => self.recipe.setup(*id),
            Stage::Measure { id } => {
                let mut calls: Vec<Call> = Vec::new();
                calls.push(self.recipe.measure(*id));
                assert(calls@ =~= self.spec_calls());
                calls
            },
            Stage::Read { id, capacity } => {
                let mut calls: Vec<Call> = Vec::new();
                calls.push(self.recipe.read(*id, *capacity));
                assert(calls@ =~= self.spec_calls());
                calls
            },
            Stage::Cleanup { id } => self.recipe.cleanup(*id),
            Stage::Ready { .. } | Stage::Failed { .. } => Vec::new(),
        }
    }

    /// Whether the making has come to its end, well or not.
    pub fn finished(&self) -> (finished: bool)
        ensures
            finished == self.spec_finished(),
    {
        match &self.stage {
            Stage::Ready { .. } | Stage::Failed { .. } => true,
            _ => false,
        }
    }

    /// Whether `reply` can be taken at this stage.
    pub fn admits(&self, reply: &Reply) -> (admits: bool)
        ensures
            admits == self.spec_admits(*reply),
    {
        match (&self.stage, reply) {
            (Stage::Measure { .. }, Reply::Value(len)) => *len >= 1,
            _ => true,
        }
    }

    /// Takes the answer to the calls of this stage and moves on.
    pub fn step(self, reply: Reply) -> (next: Build)
        requires
            self.spec_admits(reply),
        ensures
            self.steps_to(reply, next),
    {
        proof {
            use_type_invariant(&self);
        }
        let Build { recipe, stage } = self;
        let checked = recipe.checked();
        let links = match &recipe {
            Recipe::Program { .. } => true,
            _ => false,
        };
        let stage = match (stage, reply) {
            (Stage::Create, Reply::Handle(id)) => Stage::Setup { id },
            (Stage::Setup { id }, Reply::Value(status)) if checked => {
                if status == 0 {
                    Stage::Measure { id }
                } else if links {
                    Stage::Cleanup { id }
                } else {
                    Stage::Ready { id }
                }
            },
            (Stage::Setup { id }, Reply::Nothing) if !checked => Stage::Ready { id },
            (Stage::Measure { id }, Reply::Value(len)) => Stage::Read { id, capacity: len },
            (Stage::Read { .. }, Reply::Log(bytes)) => Stage::Failed {
                message: from_utf8_lossy(&bytes),
            },
            (Stage::Cleanup { id }, Reply::Nothing) => Stage::Ready { id },
            (stage, _) => stage,
        };
        Build { recipe, stage }
    }
}

/// Of the calls of a stage only the last one answers, and with the kind of
/// reply that the stage waits for. A stage without calls waits for nothing.
pub proof fn lemma_last_call_answers(build: Build)
    ensures
        forall|i: int|
            0 <= i < build.spec_calls().len() - 1 ==> (#[trigger] build.spec_calls()[i]).answer()
                == ReplyKind::Nothing,
        build.spec_calls().len() > 0 ==> build.spec_calls().last().answer() == build.awaits(),
        build.spec_calls().len() == 0 ==> build.awaits() == ReplyKind::Nothing,
{
}

/// A reply of the kind that an unfinished making waits for brings it nearer
/// to its end: no making takes more than four replies.
pub proof fn lemma_step_advances(build: Build, reply: Reply, next: Build)
    requires
        !build.spec_finished(),
        reply.kind() == build.awaits(),
        build.steps_to(reply, next),
    ensures
        next.remaining() < build.remaining(),
{
}

/// A finished making asks for no call, and no reply moves it. Neither does a
/// reply of another kind than the one waited for move any making.
pub proof fn lemma_step_stays(build: Build, reply: Reply, next: Build)
    requires
        build.spec_finished() || reply.kind() != build.awaits(),
        build.steps_to(reply, next),
    ensures
        next.spec_stage() == build.spec_stage(),
        build.spec_finished() ==> build.spec_calls().len() == 0,
{
}

} // verus!
