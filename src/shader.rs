//! A linked shader program and the driver commands that its operations ask
//! for.

use vstd::prelude::*;

verus! {

/// A linked program, known by the driver's handle for it. It is owned by one
/// caller and released once, by `delete`, which takes it.
pub struct Shader {
    pub id: u32,
}

/// A driver call that an operation on a `Shader` asks the caller to make.
#[derive(Debug, PartialEq, Eq, Structural)]
pub enum Command {
    /// Make the program the one that draws from now on.
    UseProgram { program: u32 },
    /// Upload a 4x4 matrix, column-major and not transposed, to the uniform at
    /// `location` of the program in use.
    UploadMat4 { location: i32 },
    /// Release the program object.
    DeleteProgram { program: u32 },
}

impl Shader {
    /// Releases the program: the one command that does so. It takes the
    /// shader, which has no `Drop`, so no later call can name the program and
    /// dropping it asks for nothing.
    pub fn delete(self) -> (r: Command)
        ensures
            r == (Command::DeleteProgram { program: self.id }),
    {
        Command::DeleteProgram { program: self.id }
    }

    /// Makes this program the active one.
    pub fn use_program(&self) -> (r: Command)
        ensures
            r == (Command::UseProgram { program: self.id }),
    {
        Command::UseProgram { program: self.id }
    }

    /// Sets a matrix uniform once the driver has looked its name up in this
    /// program and answered `location`: one upload at that location, whatever
    /// it is. For a name that is no uniform of the program the driver answers
    /// -1, and it ignores an upload there, so nothing changes and nothing
    /// fails.
    pub fn set_mat4(&self, location: i32) -> (r: Command)
        ensures
            r == (Command::UploadMat4 { location }),
    {
        Command::UploadMat4 { location }
    }
}

} // verus!
