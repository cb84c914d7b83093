pub mod token_store;

pub use token_store::TokenStore;
