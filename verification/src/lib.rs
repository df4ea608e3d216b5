pub mod codec;
pub mod cursor_connection;
pub mod decimal;
pub mod document_plan;
pub mod http_handler;
pub mod keyset;
pub mod model;
pub mod planner;
pub mod sql_query_builder;
