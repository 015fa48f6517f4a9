pub mod extraction_laws;
pub mod extractor;
pub mod laws;
pub mod models;
pub mod reader;
