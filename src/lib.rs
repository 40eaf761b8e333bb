//! Ledger logic of a bandwidth marketplace: node staking and reputation,
//! prepaid access passes, sponsored allocation pools and weighted random
//! node selection.
//!
//! Every operation is a verified state transition on plain records. It takes
//! the authenticated caller and the current time as values, changes nothing
//! when it fails, and hands back the audit event and the escrow transfer that
//! the surrounding runtime has to carry out for the call to take effect.
pub mod ledger;
pub mod node_ledger;
pub mod node_registry;
pub mod privacy_pass;
pub mod privacy_pool;
pub mod vrf_selection;
