//! Addressing, building and routing of calls between smart contracts.
pub mod codec;
pub mod selector;
pub mod env;
pub mod call;
pub mod create;
pub mod decl;
pub mod docs;
pub mod dispatch;
pub mod abi;
pub mod testable;
