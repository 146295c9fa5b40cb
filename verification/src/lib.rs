//! The boundary of a wallet engine with several backends: sessions and
//! their handles, calls by name with JSON in and JSON out, the failures of
//! the engine and the codes they are reported under, and what of a call
//! may appear in a log.

use vstd::prelude::*;

pub mod dispatch;
pub mod error;
pub mod exchange_rates;
pub mod json;
pub mod locks;
pub mod logger;
pub mod redact;
pub mod registry;
pub mod session;
pub mod text;
pub mod wire;

pub use dispatch::{call_session, handle_call, GDKRUST_call};
pub use logger::{init_logging, SimpleLogger};
pub use session::{
    create_session, GDKRUST_call_session, GDKRUST_create_session, GDKRUST_destroy_session,
    GDKRUST_set_notification_handler, GdkBackend, GdkSession, GreenlightSession,
};
pub use wire::build_error;

verus! {

/// The status of a boundary call that succeeded.
pub const GA_OK: i32 = 0;

/// The status of a boundary call that failed.
pub const GA_ERROR: i32 = -1;

/// The status of a boundary call that failed on a wrong PIN.
pub const GA_NOT_AUTHORIZED: i32 = -5;

} // verus!
