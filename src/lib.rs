//! Sandboxed code execution: per-language container recipes, the uniform
//! execution result, and the tool-call adaptation around them.

pub mod compilation_service;
pub mod python;
pub mod javascript;
pub mod rust;
pub mod mcp;
