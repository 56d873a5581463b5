//! The startup handshake of a desktop shell: a splash window stays up until
//! both the frontend and the backend have reported ready, and then gives way
//! to the main window exactly once.
pub mod greeting;
pub mod input;
pub mod readiness;
pub mod text;
pub mod window;
