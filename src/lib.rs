//! Walks a tree of Nix sources and plans the generation of one markdown
//! document per source file.
pub mod text;
pub mod path;
pub mod cli;
pub mod mapping;
pub mod nixdoc;
pub mod run;
