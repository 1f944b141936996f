//! Request-handling logic of three small web demos: a counter report, an
//! HTML greeting page chosen from query parameters, and decimal formatting.
pub mod decimal;
pub mod html;
pub mod index_page;
pub mod counters;
