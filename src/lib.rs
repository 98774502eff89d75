pub mod arena;
pub mod error;
pub mod event;
pub mod history;
pub mod machine;
pub mod protocol;
pub mod workflow_machines;
