//! Logic of the `ick` entry-point attribute: the verbosity policy that picks a
//! log level from `-q` / `-v` counts, the grammar of the attribute's
//! configuration, the shape check of the annotated function, and the source
//! text of the generated wrapper.

pub mod attr;
pub mod codegen;
pub mod level;
pub mod sig;

pub use attr::{level_from_name, parse_log_level, AttrError, AttrToken};
pub use codegen::{exit_status, ick, Expansion, IckError, Quick};
pub use level::{resolve, Level};
pub use sig::{parse_opt_arg, FnParam, FnSig, Main, Opt, ParamPattern, SigError};
