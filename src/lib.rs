//! A compiler pass that derives the dependency list of `autorun(callback, autorun)`
//! calls from the reads made inside the callback.
//!
//! - `ast`: the syntax tree the pass works on, and its mathematical model.
//! - `keys`, `imports`: sets of binding names, and the tracking of imported bindings.
//! - `hooks`: the bindings of a block that hooks make and that are never dependencies.
//! - `deps`, `path_set`: the dependency paths of a callback, first read first.
//! - `rewrite`: the traversal that rewrites autorun calls, over blocks and modules.
//! - `laws`: what holds of every run of the pass.

pub mod ast;
pub mod deps;
pub mod hooks;
pub mod imports;
pub mod keys;
pub mod laws;
pub mod path_set;
pub mod rewrite;
