//! A safe layer over a native optimization solver.
//!
//! The library holds everything that decides what is handed to the native
//! solver and what its answers mean: request validation, index bookkeeping,
//! the callback session protocol, file-format dispatch, the parameter and
//! attribute vocabulary, and a linear-expression algebra.
pub mod env;
pub mod error;
pub mod expr;
pub mod model;
pub mod names;
pub mod session;
pub mod text;

pub use error::{check_code, check_value, Error, Result};
pub use names::{DoubleAttr, DoubleParam, IntAttr, IntParam};
pub use env::{Env, FromRaw};
pub use model::{
    ColumnRequest, Constr, ConstrSense, MipStartRequest, Model, ModelSense, ObjectiveRequest, RowRequest,
    Status, Var, VarType,
};
pub use expr::LinExpr;
pub use text::{check_name, file_format, log_text, FileFormat};
pub use session::{
    terminate_reply, Bridge, SessionState, SolveAction, SolveSession, Stage, TerminateReply,
    CALLBACK_CONTINUE, CALLBACK_STOP, CB_CONTEXT_MIPNODE,
};
