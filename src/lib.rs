pub mod shapes;
pub mod text;
pub mod binary;
pub mod json;
pub mod profile;
