//! Access control for a secret store: decides whether a requester, known by
//! public key, may retrieve a document, by asking a permission registry
//! contract on the ledger.

pub mod abi;
pub mod acl_storage;
