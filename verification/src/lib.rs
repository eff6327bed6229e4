pub mod banner;
pub mod command;
pub mod display;
pub mod help;
pub mod laws;
pub mod numbers;
pub mod request;
pub mod search;
pub mod session;
pub mod store;
pub mod terminal;
pub mod text;
pub mod tokens;
pub mod variables;
