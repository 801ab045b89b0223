pub mod ansi;
pub mod text;
pub mod fixed;
pub mod terminal;
pub mod ascii;
