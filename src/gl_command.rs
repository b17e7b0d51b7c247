//! The graphics-driver calls that the library asks its host to make.

use vstd::prelude::*;

verus! {

/// One call into the graphics driver. The host program performs these in
/// order; the library only decides which ones and with what arguments.
#[must_use]
#[derive(Debug, PartialEq, Eq)]
pub enum GlCommand {
    /// Make `program` the active shader program.
    UseProgram { program: u32 },
    /// Look up the uniform `name` in `program` and set it to `value`. A name
    /// the program does not have is ignored by the driver.
    SetUniformInt { program: u32, name: String, value: i32 },
    /// Select texture unit `unit` (counted from the first unit).
    ActiveTexture { unit: u32 },
    /// Bind the 2-D texture `texture` to the selected unit.
    BindTexture2d { texture: u32 },
    /// Bind the vertex array `vao`; 0 unbinds.
    BindVertexArray { vao: u32 },
    /// Draw triangles from the first `count` `u32` indices of the bound index buffer.
    DrawElements { count: i32 },
}

} // verus!
