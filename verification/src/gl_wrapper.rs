//! The objects of the graphics library that the demo lives on.
//!
//! Each kind of object says how it is made, as a [`Build`] for the driver to
//! carry out, takes the finished object out of the build, and names the call
//! that lets the object go.
use crate::builder::{Build, Recipe, Stage};
use crate::call::Call;
use vstd::prelude::*;

verus! {

/// A linked shader program.
#[derive(Debug, PartialEq, Eq)]
pub struct Program {
    pub id: u32,
}

/// A compiled shader.
#[derive(Debug, PartialEq, Eq)]
pub struct Shader {
    pub id: u32,
}

/// A buffer of vertex attributes.
#[derive(Debug, PartialEq, Eq)]
pub struct ArrayBuffer {
    pub id: u32,
}

/// A buffer bound to a uniform block.
#[derive(Debug, PartialEq, Eq)]
pub struct UniformBuffer {
    pub id: u32,
}

/// A vertex array: where one vertex attribute is read from.
#[derive(Debug, PartialEq, Eq)]
pub struct VertexArray {
    pub id: u32,
}

/// The names of the shaders, in order.
pub open spec fn names(shaders: Seq<Shader>) -> Seq<u32> {
    Seq::new(shaders.len(), |k: int| shaders[k].id)
}

impl Program {
    /// The making of a program from the shaders: each is attached, the
    /// program is linked, and once it has linked each is detached again.
    pub fn from_shaders(shaders: &[Shader]) -> (build: Build)
        ensures
            build.spec_stage() == Stage::Create,
            build.spec_recipe() matches Recipe::Program { shaders: ids } && ids@ == names(
                shaders@,
            ),
    {
        let mut ids: Vec<u32> = Vec::new();
        let mut i: usize = 0;
        while i < shaders.len()
            invariant
                i <= shaders@.len(),
                ids@ == names(shaders@.take(i as int)),
            decreases shaders@.len() - i,
        {
            ids.push(shaders[i].id);
            i = i + 1;
            assert(ids@ =~= names(shaders@.take(i as int)));
        }
        assert(shaders@.take(i as int) =~= shaders@);
        Build::new(Recipe::Program { shaders: ids })
    }

    /// The program that `build` has made, if it has made one.
    pub fn from_build(build: &Build) -> (program: Option<Program>)
        ensures
            program == (if build.spec_recipe() is Program {
                match build.spec_made() {
                    Some(id) => Some(Program { id }),
                    None => None,
                }
            } else {
                None
            }),
    {
        match (build.recipe(), build.made()) {
            (Recipe::Program { .. }, Some(id)) => Some(Program { id }),
            _ => None,
        }
    }

    /// The call that makes this the program to draw with.
    pub fn use_program(&self) -> (call: Call)
        ensures
            call == (Call::UseProgram { program: self.id }),
    {
        Call::UseProgram { program: self.id }
    }

    /// The call that lets the program go.
    pub fn delete(&self) -> (call: Call)
        ensures
            call == (Call::DeleteProgram { program: self.id }),
    {
        Call::DeleteProgram { program: self.id }
    }
}

impl Shader {
    /// The making of a shader of the given kind from the source text that
    /// the driver holds: the text is compiled, and the graphics library
    /// asked whether it did compile.
    pub fn from_source(kind: u32) -> (build: Build)
        ensures
            build.spec_stage() == Stage::Create,
            build.spec_recipe() == (Recipe::Shader { kind }),
    {
        Build::new(Recipe::Shader { kind })
    }

    /// The shader that `build` has made, if it has made one.
    pub fn from_build(build: &Build) -> (shader: Option<Shader>)
        ensures
            shader == (if build.spec_recipe() is Shader {
                match build.spec_made() {
                    Some(id) => Some(Shader { id }),
                    None => None,
                }
            } else {
                None
            }),
    {
        match (build.recipe(), build.made()) {
            (Recipe::Shader { .. }, Some(id)) => Some(Shader { id }),
            _ => None,
        }
    }

    /// The call that lets the shader go.
    pub fn delete(&self) -> (call: Call)
        ensures
            call == (Call::DeleteShader { shader: self.id }),
    {
        Call::DeleteShader { shader: self.id }
    }
}

impl ArrayBuffer {
    /// The making of a buffer of vertex attributes, filled with the `size`
    /// bytes that the driver holds.
    pub fn new(size: usize) -> (build: Build)
        ensures
            build.spec_stage() == Stage::Create,
            build.spec_recipe() == (Recipe::ArrayBuffer { size }),
    {
        Build::new(Recipe::ArrayBuffer { size })
    }

    /// The buffer that `build` has made, if it has made one.
    pub fn from_build(build: &Build) -> (buffer: Option<ArrayBuffer>)
        ensures
            buffer == (if build.spec_recipe() is ArrayBuffer {
                match build.spec_made() {
                    Some(id) => Some(ArrayBuffer { id }),
                    None => None,
                }
            } else {
                None
            }),
    {
        match (build.recipe(), build.made()) {
            (Recipe::ArrayBuffer { .. }, Some(id)) => Some(ArrayBuffer { id }),
            _ => None,
        }
    }

    /// The call that lets the buffer go.
    pub fn delete(&self) -> (call: Call)
        ensures
            call == (Call::DeleteBuffers { buffer: self.id }),
    {
        Call::DeleteBuffers { buffer: self.id }
    }
}

impl UniformBuffer {
    /// The making of a buffer filled with the `size` bytes that the driver
    /// holds, and bound to the uniform block binding `index`.
    pub fn new(index: u32, size: usize) -> (build: Build)
        ensures
            build.spec_stage() == Stage::Create,
            build.spec_recipe() == (Recipe::UniformBuffer { index, size }),
    {
        Build::new(Recipe::UniformBuffer { index, size })
    }

    /// The buffer that `build` has made, if it has made one.
    pub fn from_build(build: &Build) -> (buffer: Option<UniformBuffer>)
        ensures
            buffer == (if build.spec_recipe() is UniformBuffer {
                match build.spec_made() {
                    Some(id) => Some(UniformBuffer { id }),
                    None => None,
                }
            } else {
                None
            }),
    {
        match (build.recipe(), build.made()) {
            (Recipe::UniformBuffer { .. }, Some(id)) => Some(UniformBuffer { id }),
            _ => None,
        }
    }

    /// The call that lets the buffer go.
    pub fn delete(&self) -> (call: Call)
        ensures
            call == (Call::DeleteBuffers { buffer: self.id }),
    {
        Call::DeleteBuffers { buffer: self.id }
    }
}

impl VertexArray {
    /// The making of a vertex array that reads attribute `index` from the
    /// buffer `vbo`: `components` numbers per vertex, `stride` bytes apart.
    pub fn new(index: u32, components: i32, stride: usize, vbo: u32) -> (build: Build)
        ensures
            build.spec_stage() == Stage::Create,
            build.spec_recipe() == (Recipe::VertexArray { index, components, stride, vbo }),
    {
        Build::new(Recipe::VertexArray { index, components, stride, vbo })
    }

    /// The vertex array that `build` has made, if it has made one.
    pub fn from_build(build: &Build) -> (array: Option<VertexArray>)
        ensures
            array == (if build.spec_recipe() is VertexArray {
                match build.spec_made() {
                    Some(id) => Some(VertexArray { id }),
                    None => None,
                }
            } else {
                None
            }),
    {
        match (build.recipe(), build.made()) {
            (Recipe::VertexArray { .. }, Some(id)) => Some(VertexArray { id }),
            _ => None,
        }
    }

    /// The call that lets the vertex array go. No buffer is deleted by it,
    /// not the one that the array reads from either.
    pub fn delete(&self) -> (call: Call)
        ensures
            call == (Call::DeleteVertexArrays { array: self.id }),
    {
        Call::DeleteVertexArrays { array: self.id }
    }
}

} // verus!
