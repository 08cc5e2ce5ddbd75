//! The decisions of building a full-text index of a book catalog: sizing the
//! writer's memory budget, counting and decoding the rows of a delimited
//! source, turning records into documents, and the phases of a build with
//! the accounting of every row.
pub mod budget;
pub mod record;
pub mod document;
pub mod pipeline;
pub mod rows;
