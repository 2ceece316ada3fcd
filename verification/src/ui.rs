pub mod gpio;
pub mod text;
