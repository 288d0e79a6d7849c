//! An escrow-style value-transfer engine.
//!
//! A creator deposits a positive amount of a single configured token together
//! with a text message, forming a *drop*.  A claimer may later withdraw the
//! deposit exactly once; until that happens the creator may cancel the drop
//! and take the deposit back.  Every operation is guarded purely by explicit
//! authorization verdicts and state checks, so the engine stays safe when any
//! party may invoke any operation.
//!
//! The engine owns its state outright: the singleton configuration (token
//! identity and drop counter) and the per-drop records.  Balance movements go
//! through [`ledger::Ledger`], a verified model of the fungible-token ledger
//! the engine collaborates with; authorization verdicts are passed in
//! explicitly by the host.

pub mod engine;
pub mod errors;
pub mod keys;
pub mod laws;
pub mod ledger;
pub mod record;
