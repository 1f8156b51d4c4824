//! A static site generator's content pipeline: source files are split into a
//! metadata block and a body, items are validated, partitioned and ordered
//! newest first, and the outputs of a generation run are planned.
//!
//! A source file whose metadata block is empty takes the default metadata,
//! dated at the Unix epoch, so that loading depends on the file alone. URL
//! templates are text and the placeholders for `year`, `month`, `day` and
//! `link` (`{{ year }}`, with any whitespace inside the braces); tags and
//! comments (`{%`, `{#`) are refused.

pub mod conf;
pub mod engine;
pub mod error;
pub mod files;
pub mod markdown;
pub mod post;
pub mod site;
pub mod source;
pub mod text;
pub mod theme;
pub mod time;
