pub mod abi;
pub mod parsing;
pub mod utils;
