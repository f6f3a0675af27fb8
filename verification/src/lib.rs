pub mod gui;
pub mod settings;
pub mod text;
