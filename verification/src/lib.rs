pub mod ctrl;
pub mod data;
pub mod driver;
pub mod errors;
pub mod frame;
pub mod plan;
pub mod reg;
