pub mod comm;
pub mod convert;
pub mod text;
pub mod routes;
pub mod server;
