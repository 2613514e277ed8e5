use crate::accounts::{AccountView, SignerAccount};
use crate::error::ErrorCode;
use crate::instructions::{create_outcome, update_outcome};
use crate::record::{decode_record, encode_record, lemma_decode_encode, ConfigModel};
use vstd::prelude::*;

verus! {

/// One update request, as the model of a sequence of requests sees it.
pub struct UpdateRequest {
    pub bind_admin: bool,
    pub signer: SignerAccount,
    pub derived: Option<Seq<u8>>,
    pub value: u8,
}

/// The bytes stored at the account with address `key` after `requests` ran in
/// order on `data`; a refused request leaves them as they were.
pub open spec fn run_updates(key: Seq<u8>, data: Seq<u8>, requests: Seq<UpdateRequest>) -> Seq<u8>
    decreases requests.len(),
{
    if requests.len() == 0 {
        data
    } else {
        let q = requests.last();
        let before = run_updates(key, data, requests.drop_last());
        match update_outcome(q.bind_admin, q.signer, AccountView { key, data: before }, q.derived, q.value) {
            Ok(after) => after,
            Err(_) => before,
        }
    }
}

/// Creation is once only: on an empty account at the config address, a
/// signed creation stores `admin` with value 0, and a second creation at the
/// same address is refused with `AlreadyExists` and leaves that record.
pub proof fn lemma_singleton_creation(key: Seq<u8>, admin: Seq<u8>, second_admin: Seq<u8>)
    requires
        admin.len() == 32,
    ensures
        create_outcome(true, AccountView { key, data: Seq::empty() }, Some(key), admin)
            == Ok::<Seq<u8>, ErrorCode>(encode_record(admin, 0)),
        create_outcome(true, AccountView { key, data: encode_record(admin, 0) }, Some(key), second_admin)
            == Err::<Seq<u8>, ErrorCode>(ErrorCode::AlreadyExists),
        decode_record(encode_record(admin, 0)) == Ok::<ConfigModel, ErrorCode>(
            ConfigModel { admin, value: 0 },
        ),
{
    lemma_decode_encode(admin, 0);
}

/// No update, secure or not, changes the stored admin: after any sequence of
/// requests the record still loads, with the admin it had before.
pub proof fn lemma_admin_immutable(key: Seq<u8>, data: Seq<u8>, requests: Seq<UpdateRequest>)
    requires
        decode_record(data) is Ok,
    ensures
        decode_record(run_updates(key, data, requests)) is Ok,
        decode_record(run_updates(key, data, requests))->Ok_0.admin == decode_record(data)->Ok_0.admin,
    decreases requests.len(),
{
    if requests.len() > 0 {
        let q = requests.last();
        let before = run_updates(key, data, requests.drop_last());
        lemma_admin_immutable(key, data, requests.drop_last());
        let rec = decode_record(before)->Ok_0;
        assert(rec.admin =~= before.subrange(8, 40));
        match update_outcome(q.bind_admin, q.signer, AccountView { key, data: before }, q.derived, q.value) {
            Ok(after) => {
                lemma_decode_encode(rec.admin, q.value);
            },
            Err(_) => {},
        }
    }
}

/// The secure update never lets an identity other than the stored admin
/// through; once that identity has signed, the refusal is `Unauthorized`.
pub proof fn lemma_secure_gate_sound(signer: SignerAccount, account: AccountView, value: u8)
    requires
        decode_record(account.data) is Ok,
        signer.key@ != decode_record(account.data)->Ok_0.admin,
    ensures
        update_outcome(true, signer, account, Some(account.key), value) is Err,
        signer.is_signer ==> update_outcome(true, signer, account, Some(account.key), value)
            == Err::<Seq<u8>, ErrorCode>(ErrorCode::Unauthorized),
{
}

/// The secure update lets the stored admin through: when it signed, the
/// stored value becomes the requested one and the admin stays.
pub proof fn lemma_secure_gate_complete(signer: SignerAccount, account: AccountView, value: u8)
    requires
        decode_record(account.data) is Ok,
        signer.key@ == decode_record(account.data)->Ok_0.admin,
        signer.is_signer,
    ensures
        update_outcome(true, signer, account, Some(account.key), value) == Ok::<Seq<u8>, ErrorCode>(
            encode_record(signer.key@, value),
        ),
        decode_record(encode_record(signer.key@, value)) == Ok::<ConfigModel, ErrorCode>(
            ConfigModel { admin: signer.key@, value },
        ),
{
    lemma_decode_encode(signer.key@, value);
}

/// The insecure update lets through any identity that signed, the stored
/// admin or not, where the secure one refuses the same request with
/// `Unauthorized`.
pub proof fn lemma_insecure_gate_open(signer: SignerAccount, account: AccountView, value: u8)
    requires
        decode_record(account.data) is Ok,
        signer.key@ != decode_record(account.data)->Ok_0.admin,
        signer.is_signer,
    ensures
        update_outcome(false, signer, account, Some(account.key), value) == Ok::<Seq<u8>, ErrorCode>(
            encode_record(decode_record(account.data)->Ok_0.admin, value),
        ),
        update_outcome(true, signer, account, Some(account.key), value) == Err::<Seq<u8>, ErrorCode>(
            ErrorCode::Unauthorized,
        ),
{
}

/// A request whose presented identity did not sign is refused with
/// `MissingSignature` by both update entry points, whatever else it holds.
pub proof fn lemma_unsigned_rejected(
    signer: SignerAccount,
    account: AccountView,
    derived: Option<Seq<u8>>,
    value: u8,
)
    requires
        !signer.is_signer,
    ensures
        update_outcome(true, signer, account, derived, value) == Err::<Seq<u8>, ErrorCode>(
            ErrorCode::MissingSignature,
        ),
        update_outcome(false, signer, account, derived, value) == Err::<Seq<u8>, ErrorCode>(
            ErrorCode::MissingSignature,
        ),
{
}

} // verus!
