//! Feature rows from Portable Executable images: the header values of an
//! image, the flags decoded from its bitmasks, the names of its imports and
//! the issuers of its signers, laid out as one line of a table whose
//! columns never change.

pub mod csv_builder;
pub mod error;
pub mod extract;
pub mod image;
pub mod inspect;
pub mod machine;
pub mod pe_collector;
pub mod pe_imports;
pub mod reader;
pub mod row_laws;
pub mod stamp;
pub mod text;
pub mod vocab;
