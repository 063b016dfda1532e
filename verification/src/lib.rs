//! Building a linked shader program out of stage sources, with every
//! intermediate object released again.
//!
//! The library never touches a graphics context itself. `ShaderCompiler`
//! decides which call comes next and what the answer to it means; a
//! `GraphicsContext` makes the call. `compile` runs the two against each
//! other until the program stands or the first failure is reported.
//!
//! Every decision is a total function of the answers received so far, so the
//! guarantees hold of every context, whatever it answers: each stage object
//! that is made is deleted again, none is deleted while it is attached, a
//! program is handed out only when everything compiled and linked, and the
//! number of calls is bounded. `model` holds the state machine, `trace` the
//! runs of it, and `laws` what is proved of them.

pub mod compiler;
pub mod context;
pub mod error;
pub mod handle;
mod history;
pub mod laws;
pub mod manager;
pub mod model;
pub mod protocol;
pub mod stage;
pub mod trace;

pub use compiler::{Progress, ShaderCompiler};
pub use context::{compile, GraphicsContext, Session};
pub use error::ShaderError;
pub use handle::{CompiledStageHandle, ShaderProgramHandle};
pub use manager::{Shader, ShaderManager};
pub use protocol::{Reply, Request};
pub use stage::{ShaderStageSource, StageKind};
