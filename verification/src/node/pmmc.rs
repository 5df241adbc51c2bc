pub mod acceptor;
pub mod leader;
pub mod message;
pub mod replica;
pub mod router;
pub mod admin;
pub mod node_state;
