pub mod driver;
pub mod sdk;
