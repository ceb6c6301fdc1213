pub mod command;
pub mod config;
pub mod confirm;
pub mod error;
pub mod initializer;
pub mod remover;
pub mod space_shower;
pub mod terminal;
