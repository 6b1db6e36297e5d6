pub mod name;
pub mod text;
pub mod words;

pub use name::{compose, gen, gen_id, generate, NameError};
