pub mod files;
pub mod general;
pub mod middleware;
