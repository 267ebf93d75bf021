use vstd::prelude::*;

verus! {

/// `VK_COMMAND_BUFFER_LEVEL_PRIMARY`.
pub const COMMAND_BUFFER_LEVEL_PRIMARY: i32 = 0;
/// `VK_COMMAND_BUFFER_LEVEL_SECONDARY`.
pub const COMMAND_BUFFER_LEVEL_SECONDARY: i32 = 1;

/// Why a command could not be recorded.
#[derive(Clone, Copy, Debug, PartialEq, Eq, Structural)]
pub enum CommandError {
    CantExecutePrimaryCommandBuffer,
}

impl CommandError {
    /// A description of the error.
    pub fn message(&self) -> (r: String)
        ensures
            r@ == "attempted to call vkCmdExecuteCommands on a primary command buffer"@,
    {
        match self {
            CommandError::CantExecutePrimaryCommandBuffer => {
                "attempted to call vkCmdExecuteCommands on a primary command buffer".to_owned()
            },
        }
    }
}

/// Checks the levels of the command buffers handed to `vkCmdExecuteCommands`:
/// only secondary command buffers may be executed from another one.
pub fn check_executable_command_buffer_levels(levels: &Vec<i32>) -> (r: Result<(), CommandError>)
    ensures
        levels@.contains(COMMAND_BUFFER_LEVEL_PRIMARY) <==> r == Err::<(), CommandError>(
            CommandError::CantExecutePrimaryCommandBuffer,
        ),
        !levels@.contains(COMMAND_BUFFER_LEVEL_PRIMARY) <==> r is Ok,
{
    let mut i: usize = 0;
    while i < levels.len()
        invariant
            i <= levels@.len(),
            forall|j: int| 0 <= j < i ==> levels@[j] != COMMAND_BUFFER_LEVEL_PRIMARY,
        decreases levels@.len() - i,
    {
        if levels[i] == COMMAND_BUFFER_LEVEL_PRIMARY {
            assert(levels@[i as int] == COMMAND_BUFFER_LEVEL_PRIMARY);
            return Err(CommandError::CantExecutePrimaryCommandBuffer);
        }
        i = i + 1;
    }
    Ok(())
}

} // verus!
