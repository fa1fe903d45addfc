pub mod availability;
pub mod calendar_service;
pub mod cli;
pub mod clock;
pub mod dag;
pub mod dates;
pub mod event_service;
pub mod models;
pub mod text;
pub mod timestamp;
pub mod tui;
