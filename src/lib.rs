//! Building and driving a GLSL shader program: the decisions of the build are
//! a state machine fed with what the graphics driver answered, so that every
//! step is checked while the driver calls themselves stay with the caller.

pub mod info_log;
pub mod shader;
pub mod pipeline;
pub mod window;
