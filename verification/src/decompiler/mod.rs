//! Decompiler from PopScript bytecode (`cpscr*.dat`) to Lua source for the AI
//! scripting engine.
pub mod tokens;
pub mod script;
pub mod decompile;
