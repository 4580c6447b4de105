use serde_json::Value;
use vstd::prelude::*;

use crate::instance_registry::types::{InstanceRecord, StreamState};
use crate::rpc::{text, unsigned, RpcData, RpcValueView};
use crate::text::{decimal, push_char, push_decimal, push_str};

verus! {

/// How many blocks a shared memory ring holds when the request does not say.
pub const DEFAULT_CAPACITY_BLOCKS: u32 = 4;

/// Parameters of `stream.sharedMemory.create`.
#[derive(Debug, Clone, PartialEq, Eq)]
pub struct StreamSharedMemoryCreateParams {
    pub instance_id: u64,
    pub capacity_blocks: Option<u32>,
}

/// Parameters of `stream.sharedMemory.destroy`.
#[derive(Debug, Clone, PartialEq, Eq)]
pub struct StreamSharedMemoryDestroyParams {
    pub instance_id: u64,
}

/// Parameters of `stream.sharedMemory.status`.
#[derive(Debug, Clone, PartialEq, Eq)]
pub struct StreamSharedMemoryStatusParams {
    pub instance_id: u64,
}

/// Parameters of `stream.sharedMemory.process`.
#[derive(Debug, Clone, PartialEq)]
pub struct StreamSharedMemoryProcessParams {
    pub instance_id: u64,
    pub frames: Option<u16>,
    pub midi_events: Vec<Value>,
    pub parameter_events: Vec<Value>,
}

/// Why a shared memory stream request failed. Errors of the file system and of the shared
/// memory layout and mapping are carried as their messages.
#[derive(Debug, Clone, PartialEq, Eq)]
pub enum SharedMemoryStreamError {
    InvalidCapacityBlocks,
    StreamClosed { instance_id: u64 },
    RegistryUnavailable,
    InsecureRootDirectory { path: String },
    Io { path: String, message: String },
    Layout(String),
    Mmap(String),
}

pub open spec fn spec_stream_error_code(error: SharedMemoryStreamError) -> i64 {
    match error {
        SharedMemoryStreamError::StreamClosed { .. } => 4094,
        SharedMemoryStreamError::RegistryUnavailable => 5035,
        SharedMemoryStreamError::InsecureRootDirectory { .. } => 5036,
        SharedMemoryStreamError::Io { .. } | SharedMemoryStreamError::Mmap(_) => 5036,
        SharedMemoryStreamError::InvalidCapacityBlocks | SharedMemoryStreamError::Layout(_) => 4221,
    }
}

pub open spec fn spec_stream_error_message(error: SharedMemoryStreamError) -> Seq<char> {
    match error {
        SharedMemoryStreamError::InvalidCapacityBlocks => "capacityBlocks must be non-zero"@,
        SharedMemoryStreamError::StreamClosed { instance_id } => "stream is closed for instance "@ + decimal(
            instance_id as nat,
        ),
        SharedMemoryStreamError::RegistryUnavailable => "shared memory stream registry unavailable"@,
        SharedMemoryStreamError::InsecureRootDirectory { path } => "shared memory root directory is not private: "@
            + path@,
        SharedMemoryStreamError::Io { path, message } => path@ + ": "@ + message@,
        SharedMemoryStreamError::Layout(message) => message@,
        SharedMemoryStreamError::Mmap(message) => message@,
    }
}

pub open spec fn spec_stream_error_data(error: SharedMemoryStreamError) -> Seq<(Seq<char>, RpcValueView)> {
    match error {
        SharedMemoryStreamError::InvalidCapacityBlocks => seq![("kind"@, text("invalid-capacity-blocks"@))],
        SharedMemoryStreamError::StreamClosed { instance_id } => seq![
            ("kind"@, text("stream-closed"@)),
            ("instanceId"@, unsigned(instance_id as int)),
        ],
        SharedMemoryStreamError::RegistryUnavailable => seq![("kind"@, text("shared-memory-registry-unavailable"@))],
        SharedMemoryStreamError::InsecureRootDirectory { path } => seq![
            ("kind"@, text("shared-memory-insecure-root"@)),
            ("path"@, text(path@)),
        ],
        SharedMemoryStreamError::Io { path, message } => seq![
            ("kind"@, text("shared-memory-io"@)),
            ("path"@, text(path@)),
            ("message"@, text(message@)),
        ],
        SharedMemoryStreamError::Layout(message) => seq![
            ("kind"@, text("shared-memory-layout"@)),
            ("message"@, text(message@)),
        ],
        SharedMemoryStreamError::Mmap(message) => seq![
            ("kind"@, text("shared-memory-mmap"@)),
            ("message"@, text(message@)),
        ],
    }
}

impl SharedMemoryStreamError {
    pub fn rpc_code(&self) -> (code: i64)
        ensures
            code == spec_stream_error_code(*self),
    {
        match self {
            SharedMemoryStreamError::StreamClosed { .. } => 4094,
            SharedMemoryStreamError::RegistryUnavailable => 5035,
            SharedMemoryStreamError::InsecureRootDirectory { .. } => 5036,
            SharedMemoryStreamError::Io { .. } | SharedMemoryStreamError::Mmap(_) => 5036,
            SharedMemoryStreamError::InvalidCapacityBlocks | SharedMemoryStreamError::Layout(_) => 4221,
        }
    }

    pub fn rpc_message(&self) -> (message: String)
        ensures
            message@ == spec_stream_error_message(*self),
    {
        match self {
            SharedMemoryStreamError::InvalidCapacityBlocks => String::from_str("capacityBlocks must be non-zero"),
            SharedMemoryStreamError::StreamClosed { instance_id } => {
                let mut message = String::from_str("stream is closed for instance ");
                push_decimal(&mut message, *instance_id as u128);
                message
            },
            SharedMemoryStreamError::RegistryUnavailable => String::from_str("shared memory stream registry unavailable"),
            SharedMemoryStreamError::InsecureRootDirectory { path } => {
                let mut message = String::from_str("shared memory root directory is not private: ");
                push_str(&mut message, path.as_str());
                message
            },
            SharedMemoryStreamError::Io { path, message } => {
                let mut text = path.clone();
                push_str(&mut text, ": ");
                push_str(&mut text, message.as_str());
                text
            },
            SharedMemoryStreamError::Layout(message) => message.clone(),
            SharedMemoryStreamError::Mmap(message) => message.clone(),
        }
    }

    pub fn rpc_data(&self) -> (data: RpcData)
        ensures
            data.entries() == spec_stream_error_data(*self),
    {
        match self {
            SharedMemoryStreamError::InvalidCapacityBlocks => RpcData::of_kind("invalid-capacity-blocks"),
            SharedMemoryStreamError::StreamClosed { instance_id } => RpcData::of_kind("stream-closed").with_unsigned(
                "instanceId",
                *instance_id as u128,
            ),
            SharedMemoryStreamError::RegistryUnavailable => RpcData::of_kind("shared-memory-registry-unavailable"),
            SharedMemoryStreamError::InsecureRootDirectory { path } => RpcData::of_kind(
                "shared-memory-insecure-root",
            ).with_text("path", path.as_str()),
            SharedMemoryStreamError::Io { path, message } => RpcData::of_kind("shared-memory-io").with_text(
                "path",
                path.as_str(),
            ).with_text("message", message.as_str()),
            SharedMemoryStreamError::Layout(message) => RpcData::of_kind("shared-memory-layout").with_text(
                "message",
                message.as_str(),
            ),
            SharedMemoryStreamError::Mmap(message) => RpcData::of_kind("shared-memory-mmap").with_text(
                "message",
                message.as_str(),
            ),
        }
    }
}

/// The ring capacity for a new shared memory stream: refused for a closed stream, then the
/// requested number of blocks (4 by default), which must not be zero.
pub fn capacity_blocks_for(record: &InstanceRecord, capacity_blocks: Option<u32>) -> (result: Result<
    u32,
    SharedMemoryStreamError,
>)
    ensures
        record.stream_state != StreamState::Open ==> result == Err::<u32, SharedMemoryStreamError>(
            SharedMemoryStreamError::StreamClosed { instance_id: record.instance_id },
        ),
        record.stream_state == StreamState::Open ==> ({
            let blocks = match capacity_blocks {
                Some(blocks) => blocks,
                None => DEFAULT_CAPACITY_BLOCKS,
            };
            if blocks == 0 {
                result == Err::<u32, SharedMemoryStreamError>(SharedMemoryStreamError::InvalidCapacityBlocks)
            } else {
                result == Ok::<u32, SharedMemoryStreamError>(blocks)
            }
        }),
{
    if !matches!(record.stream_state, StreamState::Open) {
        return Err(SharedMemoryStreamError::StreamClosed { instance_id: record.instance_id });
    }
    let blocks = match capacity_blocks {
        Some(blocks) => blocks,
        None => DEFAULT_CAPACITY_BLOCKS,
    };
    if blocks == 0 {
        return Err(SharedMemoryStreamError::InvalidCapacityBlocks);
    }
    Ok(blocks)
}

pub open spec fn spec_stream_file_name(instance_id: u64, stream_id: u64) -> Seq<char> {
    "stream-"@ + decimal(stream_id as nat) + "-instance-"@ + decimal(instance_id as nat) + ".wvst-shm"@
}

/// The name of the backing file of a stream, inside the registry's root directory.
pub fn stream_file_name(instance_id: u64, stream_id: u64) -> (name: String)
    ensures
        name@ == spec_stream_file_name(instance_id, stream_id),
{
    let mut name = String::from_str("stream-");
    push_decimal(&mut name, stream_id as u128);
    push_str(&mut name, "-instance-");
    push_decimal(&mut name, instance_id as u128);
    push_str(&mut name, ".wvst-shm");
    name
}

/// A directory mode that gives its group and others no access.
pub open spec fn spec_mode_is_private(mode: u32) -> bool {
    mode & 0o077u32 == 0
}

pub fn root_mode_is_private(mode: u32) -> (private: bool)
    ensures
        private == spec_mode_is_private(mode),
{
    mode & 0o077 == 0
}

pub open spec fn hex_digit(value: int) -> char {
    if value < 10 {
        (48 + value) as char
    } else {
        (87 + value) as char
    }
}

/// Two lower-case hexadecimal digits per byte.
pub open spec fn spec_hex(bytes: Seq<u8>) -> Seq<char>
    decreases bytes.len(),
{
    if bytes.len() == 0 {
        Seq::empty()
    } else {
        spec_hex(bytes.drop_last()).push(hex_digit(bytes.last() as int / 16)).push(
            hex_digit(bytes.last() as int % 16),
        )
    }
}

fn hex_char(value: u8) -> (digit: char)
    requires
        value < 16,
    ensures
        digit == hex_digit(value as int),
{
    if value < 10 {
        ((48u8 + value) as char)
    } else {
        ((87u8 + value) as char)
    }
}

/// The bytes in lower-case hexadecimal.
pub fn hex_text(bytes: &[u8]) -> (hex: String)
    ensures
        hex@ == spec_hex(bytes@),
{
    let mut hex = String::new();
    let mut index: usize = 0;
    while index < bytes.len()
        invariant
            index <= bytes@.len(),
            hex@ == spec_hex(bytes@.take(index as int)),
        decreases bytes@.len() - index,
    {
        let byte = bytes[index];
        proof {
            assert(bytes@.take(index + 1).drop_last() =~= bytes@.take(index as int));
            assert(bytes@.take(index + 1).last() == byte);
        }
        push_char(&mut hex, hex_char(byte / 16));
        push_char(&mut hex, hex_char(byte % 16));
        index = index + 1;
    }
    proof {
        assert(bytes@.take(index as int) =~= bytes@);
    }
    hex
}

/// `getrandom::fill` on sixteen bytes: the bytes come from the operating system's random
/// source, so nothing is promised of them, nor of whether the source answered.
#[verifier::external_body]
fn random_bytes() -> (bytes: Option<[u8; 16]>) {
    let mut bytes = [0_u8; 16];
    match getrandom::fill(&mut bytes) {
        Ok(()) => Some(bytes),
        Err(_) => None,
    }
}

/// A random suffix for the registry's root directory: sixteen random bytes in hexadecimal,
/// or nothing when the random source fails.
pub fn secure_suffix() -> (suffix: Option<String>)
    ensures
        suffix matches Some(text) ==> text@.len() == 32 && exists|bytes: Seq<u8>|
            bytes.len() == 16 && #[trigger] spec_hex(bytes) == text@,
{
    match random_bytes() {
        Some(bytes) => {
            let hex = hex_text(&bytes);
            proof {
                lemma_hex_len(bytes@);
                assert(bytes@.len() == 16);
                assert(spec_hex(bytes@) == hex@);
            }
            Some(hex)
        },
        None => None,
    }
}

proof fn lemma_hex_len(bytes: Seq<u8>)
    ensures
        spec_hex(bytes).len() == 2 * bytes.len(),
    decreases bytes.len(),
{
    if bytes.len() > 0 {
        lemma_hex_len(bytes.drop_last());
    }
}

} // verus!
