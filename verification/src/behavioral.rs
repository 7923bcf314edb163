pub mod chain_of_resposibility;
pub mod command;
pub mod mediator;
pub mod memento;
pub mod state;
pub mod strategy;
pub mod template;
pub mod visitor;
