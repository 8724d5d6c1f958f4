pub mod clock;
pub mod keys;
pub mod practice;
pub mod progress;
pub mod session;
pub mod tutorial;
pub mod utils;
