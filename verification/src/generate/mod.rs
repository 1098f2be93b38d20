pub mod document;
pub mod document_builder;
pub mod element;
pub mod font;
pub mod instruction;
pub mod outline;
pub mod padding;
pub mod pdf;
pub mod text_gen;
pub mod units;
