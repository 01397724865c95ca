use vstd::prelude::*;

verus! {

/// A logical handle to one GPU texture.
///
/// The library never talks to the GPU itself: it hands out handles of its own
/// and describes the required GPU work as [`Command`] values.  The caller maps
/// each handle to a real texture object when it executes the commands.
/// Handle `0` is reserved as the null texture.
#[derive(Clone, Copy, Debug, PartialEq, Eq, Structural)]
pub struct Texture {
    pub id: u32,
}

/// The location of a shader uniform, as reported by the rendering backend.
#[derive(Clone, Copy, Debug, PartialEq, Eq, Structural)]
pub struct Uniform {
    pub location: i32,
}

/// One unit of GPU work, to be executed by the caller in stream order.
///
/// Texture data is single-channel coverage (alpha); `WriteTexture` carries
/// tightly packed rows of `width * height` bytes.
#[derive(Clone, Debug, PartialEq, Eq)]
pub enum Command {
    /// Allocate a zero-initialized single-channel texture of the given size
    /// and associate it with `texture`.
    CreateTexture { texture: Texture, width: i32, height: i32 },
    /// Copy `data` (tightly packed, row-major, `width * height` bytes) into
    /// the sub-region of `texture` with top-left corner `(x, y)`.
    WriteTexture { texture: Texture, x: i32, y: i32, width: i32, height: i32, data: Vec<u8> },
    /// Make the given shader program current.
    UseProgram { program: u32 },
    /// Bind `texture` to the given texture unit.
    BindTexture { unit: u32, texture: Texture },
    /// Set an integer uniform of the current program.
    SetUniformInt { uniform: Uniform, value: i32 },
    /// Set a two-component uniform of the current program from a size in
    /// whole pixels.
    SetUniformSize { uniform: Uniform, width: u32, height: u32 },
    /// Draw the indexed triangles of one text batch, identified by its
    /// position in the batch list being drawn.
    DrawBatch { batch: usize, n_indices: usize },
}

} // verus!
