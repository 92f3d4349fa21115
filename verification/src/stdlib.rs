//! Replacements for runtime built-ins: the decision logic they consult on
//! every mediated call.

pub mod io;
