pub mod db;
pub mod util;
