//! Data types describing GLSL shader programs.
//!
//! These carry shader source text and scalar-kind tags. Compiling and linking
//! them against a graphics context is the renderer's business, not this
//! library's.

use vstd::prelude::*;

verus! {

/// One shader stage's GLSL source text.
#[derive(Clone, Debug)]
pub enum GLSLSource {
    Vertex(String),
    Fragment(String),
}

impl GLSLSource {
    /// The source text, whichever stage it is for.
    pub fn text(&self) -> (r: &String)
        ensures
            r@ == match self {
                GLSLSource::Vertex(s) => s@,
                GLSLSource::Fragment(s) => s@,
            },
    {
        match self {
            GLSLSource::Vertex(s) => s,
            GLSLSource::Fragment(s) => s,
        }
    }
}

/// A GLSL scalar kind.
#[derive(Clone, Debug)]
pub enum GLSLPrimitive {
    Bool,
    Double,
    Float,
    Int,
    UInt,
}

/// A GLSL vertex attribute.
#[derive(Clone, Debug)]
pub struct GLSLAttribute {}

} // verus!
