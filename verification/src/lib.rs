//! Query results of a graph database: the canonical value tree, the result
//! model, the console's command state machine and the export pipeline.

pub mod bench;
pub mod cells;
pub mod cli;
pub mod clock;
pub mod completer;
pub mod connect;
pub mod console;
pub mod csvio;
pub mod document;
pub mod encode;
pub mod json;
pub mod order;
pub mod output;
pub mod pager;
pub mod plan;
pub mod result;
pub mod table;
pub mod text;
pub mod value;
pub mod view;
