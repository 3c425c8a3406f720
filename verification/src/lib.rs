//! A safe bridge to a foreign, manually reference-counted object runtime.
//!
//! The crate models the runtime's bookkeeping explicitly: the [`rt::Rt`]
//! ledger records every retain, release and autorelease-pool frame, and the
//! ownership handles, scope guards, dispatch primitives and the
//! callback-to-future bridge are verified against that ledger.  The typed
//! entry points of the surrounding frameworks are value models over the same
//! primitives.

pub mod arc;
pub mod av;
pub mod blocks;
pub mod cm;
pub mod core_audio;
pub mod dispatch;
pub mod error;
pub mod mlc;
pub mod mps;
pub mod mtl;
pub mod ns;
pub mod objc;
pub mod os;
pub mod rt;
pub mod sn;
pub mod ui;
