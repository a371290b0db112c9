//! The agent of a chat client: the safety manager that vets every tool call,
//! the tools and their dispatcher, and the detector that judges whether a
//! task is done.
//!
//! Nothing here touches the file system. A tool call is run step by step
//! (see [`run`]): each step says what is to be read, copied or written, and
//! the next step is made from how that went.

pub mod agent;
pub mod bridge;
pub mod completion;
pub mod config;
pub mod detect;
pub mod executor;
pub mod json;
pub mod paths;
pub mod pattern;
pub mod run;
pub mod safety;
pub mod templates;
pub mod text;
pub mod tools;

pub use agent::{Agent, AgentConfig, AgentStatus};
pub use completion::{CompletionDetector, CompletionPattern, CompletionStatus};
pub use executor::{AgentExecutor, ToolInfo};
pub use safety::SafetyManager;
pub use tools::{ToolCall, ToolResult};
