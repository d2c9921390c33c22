pub mod format;
pub mod generator;
pub mod param;
pub mod text;
pub mod value;
