/// Account identities.
pub mod address;
/// Addresses derived from fixed labels under the program identity.
pub mod derivation;
/// The project record, account snapshots and error kinds.
pub mod state;
/// Checked token and native-currency movements on account snapshots.
pub mod ledger;
/// The launch operations: record creation, capped mint, swap, fees, migration, renouncement.
pub mod launchpad;
/// Properties that hold across every call of the operations.
pub mod laws;
