pub mod form;
pub mod laws;
pub mod term;
