use crate::accounts::SignerAccount;
use crate::address::{config_address, config_seed, program_address_of};
use crate::error::ErrorCode;
use crate::record::{same_identity, Config};
use vstd::prelude::*;

verus! {

/// The signature predicate: the presented identity signed the request.
pub fn require_signature(signer: &SignerAccount) -> (r: Result<(), ErrorCode>)
    ensures
        r == (if signer.is_signer {
            Ok::<(), ErrorCode>(())
        } else {
            Err(ErrorCode::MissingSignature)
        }),
{
    if signer.is_signer {
        Ok(())
    } else {
        Err(ErrorCode::MissingSignature)
    }
}

/// The identity predicate: the presented identity is the stored admin.
pub fn require_admin(signer: &SignerAccount, config: &Config) -> (r: Result<(), ErrorCode>)
    ensures
        r == (if signer.key@ == config.admin@ {
            Ok::<(), ErrorCode>(())
        } else {
            Err(ErrorCode::Unauthorized)
        }),
{
    if same_identity(&signer.key, &config.admin) {
        Ok(())
    } else {
        Err(ErrorCode::Unauthorized)
    }
}

/// The account handed in is the one derived from the config seed under
/// `program`.
pub fn require_config_address(program: &[u8; 32], key: &[u8; 32]) -> (r: Result<(), ErrorCode>)
    ensures
        r == (if program_address_of(config_seed(), program@) == Some(key@) {
            Ok::<(), ErrorCode>(())
        } else {
            Err(ErrorCode::AddressMismatch)
        }),
{
    match config_address(program) {
        Some(a) => {
            if same_identity(&a, key) {
                Ok(())
            } else {
                Err(ErrorCode::AddressMismatch)
            }
        },
        None => Err(ErrorCode::AddressMismatch),
    }
}

} // verus!
