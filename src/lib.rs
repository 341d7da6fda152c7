//! A compositional toolkit for text-based user interfaces: widgets that render
//! themselves into a context and respond to its input, layouts that arrange
//! them within a rectangular area, and focus tracking over lists of items.
pub mod space;
pub mod output;
pub mod focus;
pub mod collect;
pub mod layouts;
pub mod wrappers;
pub mod engine;
pub mod null;
pub mod text;
pub mod repl;
pub mod ansi;
pub mod tui;
pub mod scroll;
pub mod tabs;
pub mod border;
