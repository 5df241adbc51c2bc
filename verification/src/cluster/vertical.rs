pub mod activation;
pub mod configuration;
pub mod quorum;
