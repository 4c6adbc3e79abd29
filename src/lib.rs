pub mod laws;
pub mod record;
pub mod server;
pub mod store;
pub mod sync;
pub mod todo;
