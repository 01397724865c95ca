use vstd::prelude::*;

use crate::gpu::{Command, Texture, Uniform};

verus! {

/// The mesh shading program's handles: the program itself and the uniforms
/// for the view-projection and model transforms, as obtained from the
/// rendering backend by the caller.  Methods describe the GPU work they
/// require as command streams; transform uploads and uniform queries stay
/// with the backend, which deals in floating-point matrices.
pub struct MeshShader {
    pub program: u32,
    pub view_projection_uniform: Uniform,
    pub model_transform_uniform: Uniform,
}

impl MeshShader {
    pub fn new(program: u32, view_projection_uniform: Uniform, model_transform_uniform: Uniform)
        -> (s: MeshShader)
        ensures
            s == (MeshShader { program, view_projection_uniform, model_transform_uniform }),
    {
        MeshShader { program, view_projection_uniform, model_transform_uniform }
    }

    /// Binds a texture to a unit and points a sampler uniform of this
    /// program at that unit.  Units beyond 15 are not valid binding points.
    pub fn set_texture(&mut self, uniform: Uniform, unit: u32, texture: Texture) -> (cmds: Vec<
        Command,
    >)
        requires
            unit < 16,
        ensures
            *final(self) == *old(self),
            cmds@ =~= seq![
                Command::BindTexture { unit, texture },
                Command::UseProgram { program: old(self).program },
                Command::SetUniformInt { uniform, value: unit as i32 },
            ],
    {
        let mut cmds: Vec<Command> = Vec::new();
        cmds.push(Command::BindTexture { unit, texture });
        cmds.push(Command::UseProgram { program: self.program });
        cmds.push(Command::SetUniformInt { uniform, value: unit as i32 });
        cmds
    }
}

} // verus!
