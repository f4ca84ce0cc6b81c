pub mod archive;
pub mod cli;
pub mod config;
pub mod platforms;
pub mod repo;
pub mod text;
