//! A bridge between native code and a foreign, reference-counted scripting
//! runtime that is reached only through C-style function-pointer tables.
//!
//! The bridge's observable side of the foreign runtime (object reference
//! counts, the current scripting context, the task scheduler, pending
//! exceptions) is modelled explicitly by [`runtime::Runtime`], so every rule
//! the bridge must obey — balanced reference counting, at-most-once task
//! execution, context enter/exit pairing, exception extraction — is stated as
//! a contract and proved.

pub mod base;
pub mod discord;
pub mod error;
pub mod ffi;
pub mod json;
pub mod logger;
pub mod model;
pub mod smtc_core;
pub mod registry;
pub mod runtime;
pub mod string;
pub mod task;
pub mod v8;

pub use base::CefRefPtr;
pub use error::{CefError, CefResult};
pub use task::renderer_post_task_in_v8_ctx;
pub use v8::{CefV8Context, CefV8Value};
