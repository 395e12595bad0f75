pub mod bitmap;
pub mod bytes;
pub mod deposit;
pub mod digest;
pub mod error;
pub mod events;
pub mod signature;
pub mod state;
pub mod text;
pub mod timelock;
pub mod vault;
pub mod withdraw;
