use std::path::PathBuf;
use std::time::Duration;

use serde_json::Value;
use vstd::prelude::*;

use crate::rpc::{text, unsigned, RpcData, RpcValueView};
use crate::text::{decimal, push_char, push_decimal, push_str, spec_trim, text_chars, trim};

verus! {

/// `std::path::PathBuf`, carried through the library as an opaque value.
#[verifier::external_type_specification]
#[verifier::external_body]
pub struct ExPathBuf(std::path::PathBuf);

/// The most characters of worker output that an error keeps.
pub const MAX_STDERR_CHARS: usize = 4096;

/// How the bridge runs the one-shot host worker: which executable, and for how long.
#[derive(Debug)]
pub struct HostWorkerClient {
    executable: PathBuf,
    timeout: Duration,
}

impl HostWorkerClient {
    pub closed spec fn executable(&self) -> PathBuf {
        self.executable
    }

    pub closed spec fn spec_timeout(&self) -> Duration {
        self.timeout
    }

    pub fn new(executable: PathBuf, timeout: Duration) -> (client: Self)
        ensures
            client.executable() == executable,
            client.spec_timeout() == timeout,
    {
        HostWorkerClient { executable, timeout }
    }

    pub fn executable_path(&self) -> (executable: &PathBuf)
        ensures
            *executable == self.executable(),
    {
        &self.executable
    }

    pub fn timeout(&self) -> (timeout: Duration)
        ensures
            timeout == self.spec_timeout(),
    {
        self.timeout
    }
}

/// Why a host worker run failed.
#[derive(Debug, Clone, PartialEq, Eq)]
pub enum HostWorkerError {
    Spawn { executable: String, message: String },
    Timeout { timeout_ms: u128 },
    Exit { status: String, stderr: String },
    InvalidJson { message: String, stdout: String },
}

pub open spec fn spec_host_worker_error_message(error: HostWorkerError) -> Seq<char> {
    match error {
        HostWorkerError::Spawn { executable, message } => "failed to start host worker "@ + executable@ + ": "@
            + message@,
        HostWorkerError::Timeout { timeout_ms } => "host worker timed out after "@ + decimal(timeout_ms as nat)
            + "ms"@,
        HostWorkerError::Exit { status, stderr } => if stderr@.len() == 0 {
            "host worker exited with "@ + status@
        } else {
            "host worker exited with "@ + status@ + ": "@ + stderr@
        },
        HostWorkerError::InvalidJson { message, .. } => "host worker returned invalid JSON: "@ + message@,
    }
}

pub open spec fn spec_host_worker_error_data(error: HostWorkerError) -> Seq<(Seq<char>, RpcValueView)> {
    match error {
        HostWorkerError::Spawn { executable, message } => seq![
            ("kind"@, text("spawn"@)),
            ("executable"@, text(executable@)),
            ("message"@, text(message@)),
        ],
        HostWorkerError::Timeout { timeout_ms } => seq![
            ("kind"@, text("timeout"@)),
            ("timeoutMs"@, unsigned(timeout_ms as int)),
        ],
        HostWorkerError::Exit { status, stderr } => seq![
            ("kind"@, text("exit"@)),
            ("status"@, text(status@)),
            ("stderr"@, text(stderr@)),
        ],
        HostWorkerError::InvalidJson { message, stdout } => seq![
            ("kind"@, text("invalid-json"@)),
            ("message"@, text(message@)),
            ("stdout"@, text(stdout@)),
        ],
    }
}

impl HostWorkerError {
    /// 5030 to 5033: spawn, timeout, exit, invalid JSON.
    pub fn rpc_code(&self) -> (code: i64)
        ensures
            code == match self {
                HostWorkerError::Spawn { .. } => 5030i64,
                HostWorkerError::Timeout { .. } => 5031i64,
                HostWorkerError::Exit { .. } => 5032i64,
                HostWorkerError::InvalidJson { .. } => 5033i64,
            },
    {
        match self {
            HostWorkerError::Spawn { .. } => 5030,
            HostWorkerError::Timeout { .. } => 5031,
            HostWorkerError::Exit { .. } => 5032,
            HostWorkerError::InvalidJson { .. } => 5033,
        }
    }

    pub fn rpc_message(&self) -> (message: String)
        ensures
            message@ == spec_host_worker_error_message(*self),
    {
        match self {
            HostWorkerError::Spawn { executable, message } => {
                let mut text = String::from_str("failed to start host worker ");
                push_str(&mut text, executable.as_str());
                push_str(&mut text, ": ");
                push_str(&mut text, message.as_str());
                text
            },
            HostWorkerError::Timeout { timeout_ms } => {
                let mut text = String::from_str("host worker timed out after ");
                push_decimal(&mut text, *timeout_ms);
                push_str(&mut text, "ms");
                text
            },
            HostWorkerError::Exit { status, stderr } => {
                let mut text = String::from_str("host worker exited with ");
                push_str(&mut text, status.as_str());
                if !stderr.as_str().is_empty() {
                    push_str(&mut text, ": ");
                    push_str(&mut text, stderr.as_str());
                }
                text
            },
            HostWorkerError::InvalidJson { message, .. } => {
                let mut text = String::from_str("host worker returned invalid JSON: ");
                push_str(&mut text, message.as_str());
                text
            },
        }
    }

    pub fn rpc_data(&self) -> (data: RpcData)
        ensures
            data.entries() == spec_host_worker_error_data(*self),
    {
        match self {
            HostWorkerError::Spawn { executable, message } => RpcData::of_kind("spawn").with_text(
                "executable",
                executable.as_str(),
            ).with_text("message", message.as_str()),
            HostWorkerError::Timeout { timeout_ms } => RpcData::of_kind("timeout").with_unsigned(
                "timeoutMs",
                *timeout_ms,
            ),
            HostWorkerError::Exit { status, stderr } => RpcData::of_kind("exit").with_text(
                "status",
                status.as_str(),
            ).with_text("stderr", stderr.as_str()),
            HostWorkerError::InvalidJson { message, stdout } => RpcData::of_kind("invalid-json").with_text(
                "message",
                message.as_str(),
            ).with_text("stdout", stdout.as_str()),
        }
    }
}

/// What `String::from_utf8_lossy` makes of some bytes.
pub uninterp spec fn utf8_lossy(bytes: Seq<u8>) -> Seq<char>;

/// `String::from_utf8_lossy`: its text is a function of the bytes alone, named `utf8_lossy`.
#[verifier::external_body]
fn decode_lossy(bytes: &[u8]) -> (decoded: String)
    ensures
        decoded@ == utf8_lossy(bytes@),
{
    String::from_utf8_lossy(bytes).into_owned()
}

/// Worker output as an error keeps it, once decoded: trimmed, and cut to `MAX_STDERR_CHARS`
/// characters followed by `...` when longer.
pub open spec fn spec_truncate_decoded(decoded: Seq<char>) -> Seq<char> {
    let trimmed = spec_trim(decoded);
    if trimmed.len() <= MAX_STDERR_CHARS {
        trimmed
    } else {
        trimmed.take(MAX_STDERR_CHARS as int) + "..."@
    }
}

/// Worker output as an error keeps it: decoded, then trimmed and cut.
pub open spec fn spec_truncate_text(bytes: Seq<u8>) -> Seq<char> {
    spec_truncate_decoded(utf8_lossy(bytes))
}

/// Trims decoded worker output and cuts it to `MAX_STDERR_CHARS` characters.
pub fn truncate_decoded(decoded: &str) -> (truncated: String)
    ensures
        truncated@ == spec_truncate_decoded(decoded@),
{
    let trimmed = trim(decoded);
    let chars = text_chars(trimmed);
    if chars.len() <= MAX_STDERR_CHARS {
        return String::from_str(trimmed);
    }
    let mut truncated = String::new();
    let mut index: usize = 0;
    while index < MAX_STDERR_CHARS
        invariant
            index <= MAX_STDERR_CHARS,
            MAX_STDERR_CHARS < chars@.len(),
            truncated@ == chars@.take(index as int),
        decreases MAX_STDERR_CHARS - index,
    {
        push_char(&mut truncated, chars[index]);
        proof {
            assert(truncated@ =~= chars@.take(index + 1));
        }
        index = index + 1;
    }
    push_str(&mut truncated, "...");
    truncated
}

pub fn truncate_text(bytes: &[u8]) -> (truncated: String)
    ensures
        truncated@ == spec_truncate_text(bytes@),
{
    let decoded = decode_lossy(bytes);
    truncate_decoded(decoded.as_str())
}

/// What `serde_json::from_slice` makes of some bytes: the value, or the text of its error.
pub uninterp spec fn json_from_bytes(bytes: Seq<u8>) -> Result<Value, Seq<char>>;

/// `serde_json::from_slice`, with its error turned into its text; the outcome is a function
/// of the bytes alone, named `json_from_bytes`.
#[verifier::external_body]
fn parse_json(bytes: &[u8]) -> (parsed: Result<Value, String>)
    ensures
        match parsed {
            Ok(value) => json_from_bytes(bytes@) == Ok::<Value, Seq<char>>(value),
            Err(message) => json_from_bytes(bytes@) == Err::<Value, Seq<char>>(message@),
        },
{
    serde_json::from_slice(bytes).map_err(|error| error.to_string())
}

/// The answer of a host worker run that finished: an exit error with its trimmed stderr
/// when the status is a failure, else its stdout read as JSON.
pub fn worker_run_result(
    success: bool,
    status: String,
    stdout: &[u8],
    stderr: &[u8],
) -> (result: Result<Value, HostWorkerError>)
    ensures
        !success ==> (result matches Err(HostWorkerError::Exit { status: reported, stderr: kept })
            && reported == status && kept@ == spec_truncate_text(stderr@)),
        success ==> match json_from_bytes(stdout@) {
            Ok(value) => result == Ok::<Value, HostWorkerError>(value),
            Err(message) => result matches Err(HostWorkerError::InvalidJson { message: reported, stdout: kept })
                && reported@ == message && kept@ == spec_truncate_text(stdout@),
        },
{
    if !success {
        return Err(HostWorkerError::Exit { status, stderr: truncate_text(stderr) });
    }
    match parse_json(stdout) {
        Ok(value) => Ok(value),
        Err(message) => Err(HostWorkerError::InvalidJson { message, stdout: truncate_text(stdout) }),
    }
}

} // verus!
