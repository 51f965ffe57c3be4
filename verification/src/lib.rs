//! Model-worker concurrency and streaming-dispatch layer for an inference
//! server: a pool of model workers, routing of requests to a worker by model
//! name, a bridge that turns the engine's push-style callbacks into an
//! in-order pull-style stream, and coordinated shutdown of all workers.

pub mod bridge;
pub mod chat;
pub mod huggingface;
pub mod pool;
pub mod registry;
pub mod worker;
