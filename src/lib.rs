//! The `time_it` instrumentation rewriter: it turns a function definition into
//! one with the same signature whose body times the original body and records
//! the elapsed duration through `tracing` at a chosen severity.
pub mod level;
pub mod function;
pub mod emit;
pub mod syntax;
pub mod expand;

pub use expand::{expand, time_it, TimeItError};
pub use function::{Attr, FnItem, TimedFn, Stmt, Execution, transform};
pub use level::{LogLevel, ArgError, level_from_literals, level_from_name};
pub use emit::{emit, stmt_source};
