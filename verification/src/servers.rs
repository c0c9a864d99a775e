pub mod anvil;
pub mod docker;
pub mod localstack;
pub mod madara;
pub mod mongo;
pub mod orchestrator;
pub mod pathfinder;
pub mod server;
