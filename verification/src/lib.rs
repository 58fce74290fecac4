//! Small verified modules, one per language topic: values and control flow,
//! closures, compound data, iteration written as loops, pattern matching,
//! references and boxes, ownership, and strings. Each executable function
//! carries a contract that pins down exactly what it computes.

pub mod arrays;
pub mod associated_types;
pub mod closures;
pub mod compound;
pub mod conditionals;
pub mod functions;
pub mod iterators;
pub mod looping;
pub mod matching;
pub mod ownership;
pub mod patterns;
pub mod phrases;
pub mod pointers;
pub mod strings;
