pub mod gmail;
pub mod scoring;
