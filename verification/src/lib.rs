//! Live shader-reload core: an incremental, snapshot-cached syntax
//! highlighter, a validation gate that keeps malformed programs away from the
//! GPU backend, and a reload controller that swaps the active pipeline source
//! only after validation has succeeded.

pub mod highlighter;
pub mod reload;
pub mod syntax;
pub mod validator;
