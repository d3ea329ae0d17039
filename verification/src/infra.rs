pub mod client;
pub mod grpc;
pub mod repository;
