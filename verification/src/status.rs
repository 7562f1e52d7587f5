//! The status record: what automation around the launcher reads to find the
//! running network.

use vstd::prelude::*;
use vstd::string::*;
use ic_principal::Principal;

verus! {

/// The tag of the layout of the status record.
pub const STATUS_VERSION: &'static str = "1";

/// The name of the status file inside the status directory.
pub const STATUS_FILE_NAME: &'static str = "status.json";

/// The greatest number of bytes in a principal.
pub const MAX_PRINCIPAL_BYTES: usize = 29;

/// The facts about the running network. A record is made once, when the
/// instance is configured, and is written at most once.
#[derive(Clone, Debug, PartialEq, Eq)]
pub struct StatusRecord {
    /// The tag of the layout.
    pub v: String,
    /// The number of the instance on the server.
    pub instance_id: usize,
    /// The port on which the server takes its configuration.
    pub config_port: u16,
    /// The port of the gateway.
    pub gateway_port: u16,
    /// The root key of the network, in lower-case hexadecimal digits.
    pub root_key: String,
    /// The canister that calls are addressed to by default, as text.
    pub default_effective_canister_id: String,
}

/// The lower-case hexadecimal digit for `d`.
pub open spec fn hex_digit(d: int) -> char
    recommends
        0 <= d < 16,
{
    if d < 10 {
        ('0' as u8 + d) as u8 as char
    } else {
        ('a' as u8 + (d - 10)) as u8 as char
    }
}

/// Whether `c` is a decimal digit or a letter from `a` to `f`.
pub open spec fn is_lower_hex_digit(c: char) -> bool {
    ('0' <= c && c <= '9') || ('a' <= c && c <= 'f')
}

/// The bytes of `data` in hexadecimal: two lower-case digits for each byte, the
/// high half first.
pub open spec fn lower_hex(data: Seq<u8>) -> Seq<char> {
    Seq::new(
        2 * data.len(),
        |i: int|
            if i % 2 == 0 {
                hex_digit(data[i / 2] as int / 16)
            } else {
                hex_digit(data[i / 2] as int % 16)
            },
    )
}

/// The number that the hexadecimal digit `c` stands for.
pub open spec fn hex_digit_value(c: char) -> int
    recommends
        is_lower_hex_digit(c),
{
    if '0' <= c && c <= '9' {
        c as u32 - '0' as u32
    } else {
        c as u32 - 'a' as u32 + 10
    }
}

/// The bytes that `text` denotes in hexadecimal, two digits for each byte.
pub open spec fn from_lower_hex(text: Seq<char>) -> Seq<u8>
    recommends
        text.len() % 2 == 0,
{
    Seq::new(
        text.len() / 2,
        |i: int| (hex_digit_value(text[2 * i]) * 16 + hex_digit_value(text[2 * i + 1])) as u8,
    )
}

/// The text of the principal with the bytes `bytes`, as `ic_principal` writes it.
pub uninterp spec fn principal_text(bytes: Seq<u8>) -> Seq<char>;

/// Calls `hex::encode`, which writes each byte as two lower-case hexadecimal
/// digits, the high half first.
#[verifier::external_body]
fn hex_encode(data: &[u8]) -> (text: String)
    ensures
        text@ == lower_hex(data@),
{
    hex::encode(data)
}

/// Calls `ic_principal::Principal::try_from_slice` and, where that accepts the
/// bytes, `Principal::to_text` on the result. The bytes are accepted if they are
/// at most 29; the text depends on the bytes alone.
#[verifier::external_body]
fn principal_to_text(bytes: &[u8]) -> (text: Option<String>)
    ensures
        text is Some <==> bytes@.len() <= MAX_PRINCIPAL_BYTES,
        text matches Some(t) ==> t@ == principal_text(bytes@),
{
    match Principal::try_from_slice(bytes) {
        Ok(principal) => Some(principal.to_text()),
        Err(_) => None,
    }
}

impl StatusRecord {
    /// Puts a record together from values that are already text.
    pub fn assemble(
        instance_id: usize,
        config_port: u16,
        gateway_port: u16,
        root_key: String,
        default_effective_canister_id: String,
    ) -> (record: StatusRecord)
        ensures
            record.v@ == STATUS_VERSION@,
            record.instance_id == instance_id,
            record.config_port == config_port,
            record.gateway_port == gateway_port,
            record.root_key == root_key,
            record.default_effective_canister_id == default_effective_canister_id,
    {
        StatusRecord {
            v: String::from_str(STATUS_VERSION),
            instance_id,
            config_port,
            gateway_port,
            root_key,
            default_effective_canister_id,
        }
    }

    /// Makes the record of a configured instance: the port that was discovered,
    /// the port of the gateway, the root key in hexadecimal and the default
    /// canister as text. Returns `None` if `canister_id` is longer than a
    /// principal can be.
    pub fn new(
        instance_id: usize,
        config_port: u16,
        gateway_port: u16,
        root_key: &[u8],
        canister_id: &[u8],
    ) -> (r: Option<StatusRecord>)
        ensures
            r is Some <==> canister_id@.len() <= MAX_PRINCIPAL_BYTES,
            r matches Some(record) ==> {
                &&& record.v@ == STATUS_VERSION@
                &&& record.instance_id == instance_id
                &&& record.config_port == config_port
                &&& record.gateway_port == gateway_port
                &&& record.root_key@ == lower_hex(root_key@)
                &&& record.default_effective_canister_id@ == principal_text(canister_id@)
            },
    {
        match principal_to_text(canister_id) {
            Some(text) => Some(
                StatusRecord::assemble(
                    instance_id,
                    config_port,
                    gateway_port,
                    hex_encode(root_key),
                    text,
                ),
            ),
            None => None,
        }
    }
}

/// The contents of the status file for a record that has been serialised: the
/// serialised text and a line feed.
pub fn status_file_contents(serialised: String) -> (contents: String)
    ensures
        contents@ == serialised@.push('\n'),
{
    proof {
        reveal_strlit("\n");
    }
    let mut contents = serialised;
    contents.append("\n");
    contents
}

/// The digit for a number below sixteen is a hexadecimal digit and stands for
/// that number.
proof fn lemma_hex_digit_range(d: int)
    requires
        0 <= d < 16,
    ensures
        is_lower_hex_digit(hex_digit(d)),
        hex_digit_value(hex_digit(d)) == d,
{
}

/// The hexadecimal text of a key has two digits for each byte of the key, and
/// the key that is read back from it is the key that went in.
pub proof fn lemma_hex_reads_back(data: Seq<u8>)
    ensures
        lower_hex(data).len() == 2 * data.len(),
        forall|i: int|
            0 <= i < lower_hex(data).len() ==> is_lower_hex_digit(#[trigger] lower_hex(data)[i]),
        from_lower_hex(lower_hex(data)) == data,
{
    let text = lower_hex(data);
    assert forall|i: int| 0 <= i < text.len() implies is_lower_hex_digit(#[trigger] text[i]) by {
        let b = data[i / 2] as int;
        lemma_hex_digit_range(b / 16);
        lemma_hex_digit_range(b % 16);
    }
    assert forall|i: int| 0 <= i < data.len() implies from_lower_hex(text)[i] == data[i] by {
        let b = data[i] as int;
        lemma_hex_digit_range(b / 16);
        lemma_hex_digit_range(b % 16);
        assert(text[2 * i] == hex_digit(b / 16));
        assert(text[2 * i + 1] == hex_digit(b % 16));
    }
    assert(from_lower_hex(text) =~= data);
}

} // verus!
