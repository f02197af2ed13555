//! Contract descriptors: bitcoin output descriptors that keep track of what
//! kind of contract (single signature, multiple signatures or a general script)
//! they stand for, and of the category of script that pays to them.
pub mod category;
pub mod compiled;
pub mod contract;
pub mod descriptor;
pub mod error;
pub mod key;
pub mod laws;
pub mod parsed;
pub mod policy;
pub mod script;
pub mod text;
pub mod weighing;
