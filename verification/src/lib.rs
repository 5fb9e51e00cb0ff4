pub mod constants;
pub mod decode;
pub mod encode;
pub mod frame;
pub mod handlers;
pub mod json;
pub mod laws;
pub mod message;
pub mod server;
pub mod session;
pub mod stdio;
pub mod text;
pub mod types;

pub use types::Prompt;
pub use types::Resource;
pub use types::Tool;
