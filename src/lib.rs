//! Request-handling logic of a small web application: form validation,
//! error responses, flash-message summaries, a per-session visit counter and
//! the template contexts of its pages.

pub mod text;
pub mod error;
pub mod validation;
pub mod messages;
pub mod session;
pub mod pages;
