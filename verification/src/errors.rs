//! Failure taxonomy of the plugin manager core.
//!
//! Every operation of the library reports one of these variants; the context
//! field carries the path, registry or plugin name involved, so a caller can
//! report the full causal chain.

use vstd::prelude::*;

verus! {

/// Spec-level shape of a [`CoreError`], with character sequences in place of
/// strings.
pub enum ErrorV {
    NotFound { context: Seq<char> },
    AlreadyExists { context: Seq<char> },
    InvalidInput { context: Seq<char> },
    ExternalToolFailure { context: Seq<char>, exit_code: Option<i32>, stdout: Seq<char>, stderr: Seq<char> },
    IOFailure { context: Seq<char> },
    NetworkFailure { context: Seq<char> },
}

/// One failure of a core operation.
#[derive(Debug, Clone)]
pub enum CoreError {
    /// A plugin, registry or descriptor was absent.
    NotFound { context: String },
    /// An install collision without `force`.
    AlreadyExists { context: String },
    /// A malformed manifest, ambiguous source string or unsupported value.
    InvalidInput { context: String },
    /// An external tool or plugin process failed; both captured streams are
    /// kept verbatim.
    ExternalToolFailure { context: String, exit_code: Option<i32>, stdout: String, stderr: String },
    /// A filesystem error.
    IOFailure { context: String },
    /// A transport error or non-success status on a registry fetch.
    NetworkFailure { context: String },
}

impl View for CoreError {
    type V = ErrorV;

    open spec fn view(&self) -> ErrorV {
        match self {
            CoreError::NotFound { context } => ErrorV::NotFound { context: context@ },
            CoreError::AlreadyExists { context } => ErrorV::AlreadyExists { context: context@ },
            CoreError::InvalidInput { context } => ErrorV::InvalidInput { context: context@ },
            CoreError::ExternalToolFailure { context, exit_code, stdout, stderr } => ErrorV::ExternalToolFailure {
                context: context@,
                exit_code: *exit_code,
                stdout: stdout@,
                stderr: stderr@,
            },
            CoreError::IOFailure { context } => ErrorV::IOFailure { context: context@ },
            CoreError::NetworkFailure { context } => ErrorV::NetworkFailure { context: context@ },
        }
    }
}

impl CoreError {
    /// The context carried by the error, whatever its variant.
    pub fn context(&self) -> (r: &String)
        ensures
            r@ == self@.context_view(),
    {
        match self {
            CoreError::NotFound { context } => context,
            CoreError::AlreadyExists { context } => context,
            CoreError::InvalidInput { context } => context,
            CoreError::ExternalToolFailure { context, .. } => context,
            CoreError::IOFailure { context } => context,
            CoreError::NetworkFailure { context } => context,
        }
    }
}

impl ErrorV {
    /// The context field of any variant.
    pub open spec fn context_view(self) -> Seq<char> {
        match self {
            ErrorV::NotFound { context } => context,
            ErrorV::AlreadyExists { context } => context,
            ErrorV::InvalidInput { context } => context,
            ErrorV::ExternalToolFailure { context, .. } => context,
            ErrorV::IOFailure { context } => context,
            ErrorV::NetworkFailure { context } => context,
        }
    }
}

} // verus!
