pub mod args;
pub mod error;
pub mod google;
pub mod handlers;
pub mod tasks;
pub mod validation;
