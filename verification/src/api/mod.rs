pub mod handlers;
pub mod laws;
pub mod middleware;
