pub mod domain;
pub mod http;
pub mod infrastructure;
pub mod site;
pub mod text;
