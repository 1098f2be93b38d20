//! A page-flow layout engine: it turns a tree of document elements into a
//! paginated sequence of draw instructions for a fixed-size page.

pub mod generate;
