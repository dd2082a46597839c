//! Wallet-side logic of the ORE v1 to v2 upgrade flow: the amount form, the
//! relay that carries a transaction to an external signer and back, and the
//! lookup of a miner's proof account.

pub mod address;
pub mod relay;
pub mod proof_lookup;
pub mod upgrade;
