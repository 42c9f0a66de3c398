//! Uniform locations and uniform values.
//!
//! A location is an index into a linked program's table of active
//! uniforms.  Looking a name up that the program does not declare gives
//! an absent result, not an error; setting a value records it in the
//! program's table.

use vstd::prelude::*;

use super::shader::Shader;

verus! {

/// The location of an active uniform in a linked program.
#[derive(PartialEq, Eq, Structural, Hash, Clone, Copy, Debug)]
pub struct UniformLocation(pub(crate) u32);

impl UniformLocation {
    /// The location's index in the program's uniform table.
    pub closed spec fn index_spec(&self) -> u32 {
        self.0
    }

    /// Returns the location's index in the program's uniform table.
    pub fn index(&self) -> (i: u32)
        ensures
            i == self.index_spec(),
    {
        self.0
    }

    /// Wraps a table index; only programs hand locations out.
    pub(crate) fn from_index(i: u32) -> (l: Self)
        ensures
            l.index_spec() == i,
    {
        UniformLocation(i)
    }
}

/// A value recorded for a uniform location.
#[derive(PartialEq, Eq, Structural, Clone, Copy, Debug)]
pub enum UniformValue {
    /// One signed integer component.
    I1(i32),
    /// Two signed integer components.
    I2(i32, i32),
    /// Three signed integer components.
    I3(i32, i32, i32),
    /// Four signed integer components.
    I4(i32, i32, i32, i32),
}

/// Setting a uniform of a linked program from a plain value.
pub trait SetUniform<T> {
    /// Records `value` for the uniform at `loc`.
    fn set_uniform(&mut self, loc: UniformLocation, value: T);
}

impl SetUniform<i32> for Shader {
    fn set_uniform(&mut self, loc: UniformLocation, value: i32) {
        self.set_uniform_value(loc, UniformValue::I1(value));
    }
}

impl SetUniform<(i32,)> for Shader {
    fn set_uniform(&mut self, loc: UniformLocation, value: (i32,)) {
        self.set_uniform_value(loc, UniformValue::I1(value.0));
    }
}

impl SetUniform<(i32, i32)> for Shader {
    fn set_uniform(&mut self, loc: UniformLocation, value: (i32, i32)) {
        self.set_uniform_value(loc, UniformValue::I2(value.0, value.1));
    }
}

impl SetUniform<(i32, i32, i32)> for Shader {
    fn set_uniform(&mut self, loc: UniformLocation, value: (i32, i32, i32)) {
        self.set_uniform_value(loc, UniformValue::I3(value.0, value.1, value.2));
    }
}

impl SetUniform<(i32, i32, i32, i32)> for Shader {
    fn set_uniform(&mut self, loc: UniformLocation, value: (i32, i32, i32, i32)) {
        self.set_uniform_value(loc, UniformValue::I4(value.0, value.1, value.2, value.3));
    }
}

impl SetUniform<[i32; 2]> for Shader {
    fn set_uniform(&mut self, loc: UniformLocation, value: [i32; 2]) {
        self.set_uniform_value(loc, UniformValue::I2(value[0], value[1]));
    }
}

impl SetUniform<[i32; 3]> for Shader {
    fn set_uniform(&mut self, loc: UniformLocation, value: [i32; 3]) {
        self.set_uniform_value(loc, UniformValue::I3(value[0], value[1], value[2]));
    }
}

impl SetUniform<[i32; 4]> for Shader {
    fn set_uniform(&mut self, loc: UniformLocation, value: [i32; 4]) {
        self.set_uniform_value(loc, UniformValue::I4(value[0], value[1], value[2], value[3]));
    }
}

} // verus!
