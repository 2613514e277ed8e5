use crate::accounts::{AccountView, InitializeConfig, SignerAccount, UpdateConfig};
use crate::address::{config_seed, program_address_of};
use crate::error::ErrorCode;
use crate::gate::{require_admin, require_config_address, require_signature};
use crate::record::{decode_config, decode_record, encode_config, encode_record, Config};
use vstd::prelude::*;

verus! {

/// What creation stores at `account`, or why it is refused; `derived` is the
/// config address of the program.
pub open spec fn create_outcome(
    payer_signed: bool,
    account: AccountView,
    derived: Option<Seq<u8>>,
    admin: Seq<u8>,
) -> Result<Seq<u8>, ErrorCode> {
    if !payer_signed {
        Err(ErrorCode::MissingSignature)
    } else if derived != Some(account.key) {
        Err(ErrorCode::AddressMismatch)
    } else if account.data.len() != 0 {
        Err(ErrorCode::AlreadyExists)
    } else {
        Ok(encode_record(admin, 0))
    }
}

/// What an update stores at `account`, or why it is refused. With
/// `bind_admin` the presented identity must also be the stored admin; without
/// it, any identity that signed passes.
pub open spec fn update_outcome(
    bind_admin: bool,
    signer: SignerAccount,
    account: AccountView,
    derived: Option<Seq<u8>>,
    value: u8,
) -> Result<Seq<u8>, ErrorCode> {
    if !signer.is_signer {
        Err(ErrorCode::MissingSignature)
    } else if derived != Some(account.key) {
        Err(ErrorCode::AddressMismatch)
    } else {
        match decode_record(account.data) {
            Err(e) => Err(e),
            Ok(rec) => if bind_admin && signer.key@ != rec.admin {
                Err(ErrorCode::Unauthorized)
            } else {
                Ok(encode_record(rec.admin, value))
            },
        }
    }
}

/// Creates the config record with `admin` and value 0 at the config address
/// of `program_id`. Refused when the payer did not sign, when the account is
/// not at the config address, or when a record is already there.
pub fn initialize_config(program_id: &[u8; 32], ctx: &mut InitializeConfig, admin: [u8; 32]) -> (r:
    Result<(), ErrorCode>)
    ensures
        final(ctx).payer == old(ctx).payer,
        final(ctx).config.key == old(ctx).config.key,
        match create_outcome(
            old(ctx).payer.is_signer,
            old(ctx).config@,
            program_address_of(config_seed(), program_id@),
            admin@,
        ) {
            Ok(d) => r is Ok && final(ctx).config.data@ == d,
            Err(e) => r == Err::<(), ErrorCode>(e) && final(ctx).config.data@ == old(
                ctx,
            ).config.data@,
        },
{
    require_signature(&ctx.payer)?;
    require_config_address(program_id, &ctx.config.key)?;
    if ctx.config.data.len() != 0 {
        return Err(ErrorCode::AlreadyExists);
    }
    ctx.config.data = encode_config(&Config { admin, value: 0 });
    Ok(())
}

/// Shared body of both update entry points.
fn update_config(program_id: &[u8; 32], ctx: &mut UpdateConfig, data: u8, bind_admin: bool) -> (r:
    Result<(), ErrorCode>)
    ensures
        final(ctx).admin == old(ctx).admin,
        final(ctx).config.key == old(ctx).config.key,
        match update_outcome(
            bind_admin,
            old(ctx).admin,
            old(ctx).config@,
            program_address_of(config_seed(), program_id@),
            data,
        ) {
            Ok(d) => r is Ok && final(ctx).config.data@ == d,
            Err(e) => r == Err::<(), ErrorCode>(e) && final(ctx).config.data@ == old(
                ctx,
            ).config.data@,
        },
{
    require_signature(&ctx.admin)?;
    require_config_address(program_id, &ctx.config.key)?;
    let config = decode_config(&ctx.config.data)?;
    if bind_admin {
        require_admin(&ctx.admin, &config)?;
    }
    ctx.config.data = encode_config(&Config { admin: config.admin, value: data });
    Ok(())
}

/// The insecure update: sets the stored value once the presented identity
/// has signed, without asking whether that identity is the stored admin.
pub fn update_config_bad(program_id: &[u8; 32], ctx: &mut UpdateConfig, data: u8) -> (r: Result<
    (),
    ErrorCode,
>)
    ensures
        final(ctx).admin == old(ctx).admin,
        final(ctx).config.key == old(ctx).config.key,
        match update_outcome(
            false,
            old(ctx).admin,
            old(ctx).config@,
            program_address_of(config_seed(), program_id@),
            data,
        ) {
            Ok(d) => r is Ok && final(ctx).config.data@ == d,
            Err(e) => r == Err::<(), ErrorCode>(e) && final(ctx).config.data@ == old(
                ctx,
            ).config.data@,
        },
{
    update_config(program_id, ctx, data, false)
}

/// The secure update: sets the stored value only when the presented identity
/// signed and is the stored admin.
pub fn update_config_good(program_id: &[u8; 32], ctx: &mut UpdateConfig, data: u8) -> (r: Result<
    (),
    ErrorCode,
>)
    ensures
        final(ctx).admin == old(ctx).admin,
        final(ctx).config.key == old(ctx).config.key,
        match update_outcome(
            true,
            old(ctx).admin,
            old(ctx).config@,
            program_address_of(config_seed(), program_id@),
            data,
        ) {
            Ok(d) => r is Ok && final(ctx).config.data@ == d,
            Err(e) => r == Err::<(), ErrorCode>(e) && final(ctx).config.data@ == old(
                ctx,
            ).config.data@,
        },
{
    update_config(program_id, ctx, data, true)
}

} // verus!
