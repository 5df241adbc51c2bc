pub mod acceptor;
pub mod leader;
pub mod message;
pub mod node;
pub mod node_state;
pub mod replica;
pub mod router;
