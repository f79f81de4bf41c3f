pub mod contract;
pub mod error;
pub mod external;
pub mod keys;
pub mod laws;
pub mod msg;
pub mod response;
pub mod text;
