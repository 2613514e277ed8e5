use crate::error::ErrorCode;
use vstd::prelude::*;

verus! {

/// Number of bytes a stored config record takes: tag, admin, value.
pub const RECORD_LEN: usize = 41;

/// The stored config record.
#[derive(Debug, Clone, Copy)]
pub struct Config {
    pub admin: [u8; 32],
    pub value: u8,
}

/// What a config record holds, as mathematical values.
pub struct ConfigModel {
    pub admin: Seq<u8>,
    pub value: u8,
}

impl View for Config {
    type V = ConfigModel;

    open spec fn view(&self) -> ConfigModel {
        ConfigModel { admin: self.admin@, value: self.value }
    }
}

/// The eight-byte format tag that opens a stored config record: the first
/// eight bytes of SHA-256 of `account:Config`, as Anchor tags this type.
pub open spec fn config_tag() -> Seq<u8> {
    seq![155u8, 12u8, 170u8, 224u8, 30u8, 250u8, 204u8, 130u8]
}

/// The stored form of a record: tag, then the admin, then the value.
pub open spec fn encode_record(admin: Seq<u8>, value: u8) -> Seq<u8> {
    config_tag() + admin + seq![value]
}

/// What loading the stored bytes `data` gives.
pub open spec fn decode_record(data: Seq<u8>) -> Result<ConfigModel, ErrorCode> {
    if data.len() == 0 {
        Err(ErrorCode::NotFound)
    } else if data.len() != RECORD_LEN || data.subrange(0, 8) != config_tag() {
        Err(ErrorCode::Corrupt)
    } else {
        Ok(ConfigModel { admin: data.subrange(8, 40), value: data[40] })
    }
}

/// A load result, with the record as mathematical values.
pub open spec fn loaded_view(r: Result<Config, ErrorCode>) -> Result<ConfigModel, ErrorCode> {
    match r {
        Ok(c) => Ok(c@),
        Err(e) => Err(e),
    }
}

/// Decoding the stored form of a record gives the record back.
pub proof fn lemma_decode_encode(admin: Seq<u8>, value: u8)
    requires
        admin.len() == 32,
    ensures
        decode_record(encode_record(admin, value)) == Ok::<ConfigModel, ErrorCode>(
            ConfigModel { admin, value },
        ),
{
    let d = encode_record(admin, value);
    assert(d.subrange(0, 8) =~= config_tag());
    assert(d.subrange(8, 40) =~= admin);
}

/// The tag as bytes.
pub fn config_tag_bytes() -> (r: [u8; 8])
    ensures
        r@ == config_tag(),
{
    let t: [u8; 8] = [155u8, 12u8, 170u8, 224u8, 30u8, 250u8, 204u8, 130u8];
    assert(t@ =~= config_tag());
    t
}

/// Whether two identities are the same 32 bytes.
pub fn same_identity(a: &[u8; 32], b: &[u8; 32]) -> (r: bool)
    ensures
        r == (a@ == b@),
{
    let mut i: usize = 0;
    while i < 32
        invariant
            i <= 32,
            forall|j: int| 0 <= j < i ==> a@[j] == b@[j],
        decreases 32 - i,
    {
        if a[i] != b[i] {
            return false;
        }
        i = i + 1;
    }
    assert(a@ =~= b@);
    true
}

/// The stored form of `config`.
pub fn encode_config(config: &Config) -> (r: Vec<u8>)
    ensures
        r@ == encode_record(config.admin@, config.value),
{
    let tag = config_tag_bytes();
    let mut out: Vec<u8> = Vec::with_capacity(RECORD_LEN);
    let mut i: usize = 0;
    while i < 8
        invariant
            i <= 8,
            out@ == tag@.subrange(0, i as int),
        decreases 8 - i,
    {
        out.push(tag[i]);
        i = i + 1;
    }
    let mut j: usize = 0;
    while j < 32
        invariant
            j <= 32,
            out@ == tag@ + config.admin@.subrange(0, j as int),
        decreases 32 - j,
    {
        out.push(config.admin[j]);
        j = j + 1;
    }
    out.push(config.value);
    assert(out@ =~= encode_record(config.admin@, config.value));
    out
}

/// Loads the record from the stored bytes `data`: `NotFound` when nothing is
/// stored, `Corrupt` when the length or the tag is not that of a record.
pub fn decode_config(data: &Vec<u8>) -> (r: Result<Config, ErrorCode>)
    ensures
        loaded_view(r) == decode_record(data@),
{
    if data.len() == 0 {
        return Err(ErrorCode::NotFound);
    }
    if data.len() != RECORD_LEN {
        return Err(ErrorCode::Corrupt);
    }
    let tag = config_tag_bytes();
    let mut i: usize = 0;
    while i < 8
        invariant
            i <= 8,
            data@.len() == RECORD_LEN,
            tag@ == config_tag(),
            forall|j: int| 0 <= j < i ==> data@[j] == tag@[j],
        decreases 8 - i,
    {
        if data[i] != tag[i] {
            return Err(ErrorCode::Corrupt);
        }
        i = i + 1;
    }
    assert(data@.subrange(0, 8) =~= config_tag());
    let mut admin: [u8; 32] = [0u8; 32];
    let mut k: usize = 0;
    while k < 32
        invariant
            k <= 32,
            data@.len() == RECORD_LEN,
            forall|j: int| 0 <= j < k ==> admin@[j] == data@[j + 8],
        decreases 32 - k,
    {
        admin[k] = data[k + 8];
        k = k + 1;
    }
    assert(admin@ =~= data@.subrange(8, 40));
    Ok(Config { admin, value: data[40] })
}

} // verus!
