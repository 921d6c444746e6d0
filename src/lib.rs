// Rewrite rules that resolve calls and property accesses on well-known
// JavaScript runtime APIs (path, fs, url, child_process, require, import)
// over a symbolic value lattice.

mod text;
pub mod value;
pub mod path;
pub mod resolve;
pub mod laws;
