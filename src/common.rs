pub mod constants;
pub mod errors;
pub mod types;
pub mod util;
