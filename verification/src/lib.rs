pub mod config;
pub mod cycle;
pub mod db;
pub mod errors;
pub mod stages;
pub mod state;
pub mod types;
pub mod wake;
pub mod window;
