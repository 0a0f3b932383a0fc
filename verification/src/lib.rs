//! Planning for a small real-time raytracing demo on OpenGL.
//!
//! The picture is computed by a fragment shader; what is left for the host is
//! to hand the graphics library a program, a quad to draw on and a description
//! of the scene. This crate holds the part of that work which can be stated
//! exactly: the words of the scene as the shader reads them, and the graphics
//! calls by which each object comes to life, in their order. It makes no
//! graphics call itself. A driver performs the calls that a [`builder::Build`]
//! asks for and hands back what the graphics library answered.
pub mod builder;
pub mod call;
pub mod gl_wrapper;
pub mod scene;
pub mod vec3;
