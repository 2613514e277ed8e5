use vstd::prelude::*;

verus! {

/// An identity named in a request, with the ledger's verdict on whether it
/// signed that request.
#[derive(Debug, Clone, Copy)]
pub struct SignerAccount {
    pub key: [u8; 32],
    pub is_signer: bool,
}

/// The account that holds (or is to hold) the config record: its address and
/// its stored bytes, empty while nothing is allocated there.
#[derive(Debug)]
pub struct ConfigAccount {
    pub key: [u8; 32],
    pub data: Vec<u8>,
}

/// A config account as mathematical values.
pub struct AccountView {
    pub key: Seq<u8>,
    pub data: Seq<u8>,
}

impl View for ConfigAccount {
    type V = AccountView;

    open spec fn view(&self) -> AccountView {
        AccountView { key: self.key@, data: self.data@ }
    }
}

/// The accounts of a creation request.
#[derive(Debug)]
pub struct InitializeConfig {
    /// Funds the new record, and must sign.
    pub payer: SignerAccount,
    pub config: ConfigAccount,
}

/// The accounts of an update request.
#[derive(Debug)]
pub struct UpdateConfig {
    /// The identity presented as admin.
    pub admin: SignerAccount,
    pub config: ConfigAccount,
}

} // verus!
