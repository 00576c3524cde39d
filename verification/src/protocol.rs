//! The conversation between a pool and one of its workers: the requests the
//! pool sends and the events the worker answers with.
//!
//! Interpreter values travel as [`WireValue`]s. What only the interpreter's own
//! serializers can produce (JSON text of a container, the escaped content of a
//! byte string, the printed form of a float) travels beside the value as text.

use crate::limits::WireLimits;
use vstd::prelude::*;

verus! {

/// JSON text of a value, and whether the serializer cut it at its byte cap.
#[derive(Debug)]
pub struct Rendered {
    pub text: String,
    pub cut: bool,
}

/// A byte string with the escaped content of its head: what Python's `repr`
/// prints between the quotes for the first `ATTR_SIZE_LIMIT` bytes.
#[derive(Debug)]
pub struct BytesValue {
    pub data: Vec<u8>,
    pub escaped: String,
}

/// A float by its IEEE 754 bits, with its printed form.
#[derive(Debug)]
pub struct FloatValue {
    pub bits: u64,
    pub text: String,
}

/// One interpreter value as the wire carries it.
#[derive(Debug)]
pub enum WireValue {
    /// The frame has the field but left the value out.
    Missing,
    Bool(bool),
    Int(i64),
    Float(FloatValue),
    Text(String),
    Bytes(BytesValue),
    /// Every other value, by its JSON text.
    Other(Rendered),
}

/// One input of a feed; `V` is the interpreter's value type.
#[derive(Debug)]
pub struct NamedValue<V> {
    pub name: String,
    pub value: Option<V>,
}

/// One frame of a traceback.
#[derive(Debug)]
pub struct StackFrame {
    pub filename: String,
    /// Line the frame starts at, when the frame says so.
    pub line: Option<u32>,
    /// Name of the function, `None` at module level.
    pub frame_name: Option<String>,
}

/// The input a codec failed on.
#[derive(Debug)]
pub enum UnicodeObject {
    Bytes(BytesValue),
    Text(String),
}

/// Payload of a codec error.
#[derive(Debug)]
pub struct UnicodeErrorData {
    pub encoding: String,
    pub object: Option<UnicodeObject>,
    pub start: u64,
    pub end: u64,
    pub reason: String,
}

/// Payload of a JSON decoding error.
#[derive(Debug)]
pub struct JsonErrorData {
    pub msg: String,
    pub doc: Option<String>,
    pub pos: u64,
    pub lineno: u64,
    pub colno: u64,
}

/// Structured payload of an exception.
#[derive(Debug)]
pub enum ExcData {
    Unicode(UnicodeErrorData),
    Json(JsonErrorData),
}

/// An exception the sandbox or the host raised.
#[derive(Debug)]
pub struct RaisedException {
    /// Name of the class, which sandboxed code can choose freely.
    pub exc_type: String,
    /// The interpreter's own name for the class, when it knows the class.
    pub known: Option<&'static str>,
    pub message: Option<String>,
    pub traceback: Vec<StackFrame>,
    pub data: Option<ExcData>,
}

/// The host's answer to a call the sandbox made.
#[derive(Debug)]
pub enum ExtResult {
    ReturnValue(WireValue),
    Error(RaisedException),
    /// The call goes on in the background under this id.
    Future(u32),
    /// No function of this name exists.
    NotFound(String),
    NotHandled,
}

/// The answer to one awaited background call.
#[derive(Debug)]
pub struct FutureResult {
    pub call_id: u32,
    pub result: Option<ExtResult>,
}

/// The host's answer to a name lookup.
#[derive(Debug)]
pub enum NameLookupResult {
    Value(WireValue),
    Undefined,
}

/// Opens a session on a worker.
#[derive(Debug)]
pub struct Configure {
    pub script_name: String,
    pub monty_version: String,
    pub type_check: bool,
    pub type_check_stubs: Option<String>,
    pub assert_message_annotations: Option<bool>,
    pub limits: Option<WireLimits>,
}

/// Runs code in the session.
#[derive(Debug)]
pub struct Feed {
    pub code: String,
    /// The named inputs as one JSON object, `None` when there are none.
    pub inputs: Option<Rendered>,
    pub skip_type_check: bool,
}

/// One request to a worker.
#[derive(Debug)]
pub enum ParentRequest {
    Configure(Configure),
    Feed(Feed),
    Load { state: Vec<u8> },
    Dump,
    InstallDependencies { requirements: Vec<String> },
    Reset,
    Shutdown,
    ResumeCall { call_id: u32, result: Option<ExtResult> },
    ResumeNameLookup { kind: Option<NameLookupResult> },
    ResumeFutures { results: Vec<FutureResult> },
}

/// The stream sandboxed code printed to.
#[derive(Debug, Clone, Copy, PartialEq, Eq, Structural)]
pub enum PrintStream {
    Unspecified,
    Stdout,
    Stderr,
}

/// A call of a function the host provides.
#[derive(Debug)]
pub struct FunctionCall {
    pub function_name: String,
    /// Positional arguments as a JSON list, `None` when there are none.
    pub args: Option<Rendered>,
    /// Keyword arguments as a JSON object, `None` when there are none.
    pub kwargs: Option<Rendered>,
    pub call_id: u32,
    pub method_call: bool,
}

/// Text written to a file.
#[derive(Debug)]
pub struct TextWrite {
    pub path: String,
    pub data: String,
}

/// Bytes written to a file.
#[derive(Debug)]
pub struct BytesWrite {
    pub path: String,
    pub data: BytesValue,
}

/// A timezone by its offset; a fixed-offset zone has no name.
#[derive(Debug)]
pub struct TimeZone {
    pub offset_seconds: i32,
    pub name: Option<String>,
}

/// One operating system call of sandboxed code. Every path is a virtual path
/// inside the sandbox.
#[derive(Debug)]
pub enum Call {
    Exists(String),
    IsFile(String),
    IsDir(String),
    IsSymlink(String),
    ReadText(String),
    ReadBytes(String),
    Stat(String),
    Iterdir(String),
    Resolve(String),
    Absolute(String),
    Unlink(String),
    Rmdir(String),
    WriteText(TextWrite),
    AppendText(TextWrite),
    WriteBytes(BytesWrite),
    AppendBytes(BytesWrite),
    Open { path: String, mode: String },
    Mkdir { path: String, parents: bool, exist_ok: bool },
    Rename { src: String, dst: String },
    Getenv { key: String, default: Option<WireValue> },
    GetEnviron,
    DateToday,
    DateTimeNow { tz: Option<TimeZone> },
}

/// An operating system call the sandbox is blocked on.
#[derive(Debug)]
pub struct OsCall {
    pub call_id: u32,
    pub call: Option<Call>,
}

/// What one worker event says.
#[derive(Debug)]
pub enum EventKind {
    /// Output of sandboxed code; the stream is `None` when its number is not
    /// one the protocol knows.
    Print { text: String, stream: Option<PrintStream> },
    FunctionCall(FunctionCall),
    OsCall(OsCall),
    NameLookup { name: String },
    ResolveFutures { pending_call_ids: Vec<u32> },
    Complete { value: Option<WireValue> },
    Error { exception: Option<RaisedException> },
    TypingError { diagnostics: String },
    DumpResult { state: Vec<u8> },
    /// A bare acknowledgement.
    Acknowledged,
    FatalError { message: String },
    /// The serving relay is shutting down, with its last state when it has one.
    Shutdown { dump: Option<Vec<u8>> },
}

/// One event from a worker.
#[derive(Debug)]
pub struct ChildEvent {
    pub kind: Option<EventKind>,
    /// Execution time of the whole session so far.
    pub total_execution_micros: u64,
    /// The session's duration budget.
    pub max_duration_micros: Option<u64>,
    /// Script name of the session a load restored.
    pub restored_script_name: Option<String>,
}

/// The name of a print stream.
pub open spec fn stream_name(stream: Option<PrintStream>) -> Seq<char> {
    match stream {
        Some(PrintStream::Stdout) => "stdout"@,
        Some(PrintStream::Stderr) => "stderr"@,
        _ => "unspecified"@,
    }
}

/// The name of a print stream; a number the protocol does not know reads as
/// unspecified.
pub fn print_stream(stream: Option<PrintStream>) -> (name: &'static str)
    ensures
        name@ == stream_name(stream),
{
    match stream {
        Some(PrintStream::Stdout) => "stdout",
        Some(PrintStream::Stderr) => "stderr",
        _ => "unspecified",
    }
}

/// The fixed name of an operating system call.
pub open spec fn call_name_text(call: Call) -> Seq<char> {
    match call {
        Call::Exists(_) => "exists"@,
        Call::IsFile(_) => "is_file"@,
        Call::IsDir(_) => "is_dir"@,
        Call::IsSymlink(_) => "is_symlink"@,
        Call::ReadText(_) => "read_text"@,
        Call::ReadBytes(_) => "read_bytes"@,
        Call::Stat(_) => "stat"@,
        Call::Iterdir(_) => "iterdir"@,
        Call::Resolve(_) => "resolve"@,
        Call::Absolute(_) => "absolute"@,
        Call::Unlink(_) => "unlink"@,
        Call::Rmdir(_) => "rmdir"@,
        Call::WriteText(_) => "write_text"@,
        Call::AppendText(_) => "append_text"@,
        Call::WriteBytes(_) => "write_bytes"@,
        Call::AppendBytes(_) => "append_bytes"@,
        Call::Open { .. } => "open"@,
        Call::Mkdir { .. } => "mkdir"@,
        Call::Rename { .. } => "rename"@,
        Call::Getenv { .. } => "getenv"@,
        Call::GetEnviron => "get_environ"@,
        Call::DateToday => "date_today"@,
        Call::DateTimeNow { .. } => "date_time_now"@,
    }
}

/// The fixed name of an operating system call.
pub fn call_name(call: &Call) -> (name: &'static str)
    ensures
        name@ == call_name_text(*call),
{
    match call {
        Call::Exists(_) => "exists",
        Call::IsFile(_) => "is_file",
        Call::IsDir(_) => "is_dir",
        Call::IsSymlink(_) => "is_symlink",
        Call::ReadText(_) => "read_text",
        Call::ReadBytes(_) => "read_bytes",
        Call::Stat(_) => "stat",
        Call::Iterdir(_) => "iterdir",
        Call::Resolve(_) => "resolve",
        Call::Absolute(_) => "absolute",
        Call::Unlink(_) => "unlink",
        Call::Rmdir(_) => "rmdir",
        Call::WriteText(_) => "write_text",
        Call::AppendText(_) => "append_text",
        Call::WriteBytes(_) => "write_bytes",
        Call::AppendBytes(_) => "append_bytes",
        Call::Open { .. } => "open",
        Call::Mkdir { .. } => "mkdir",
        Call::Rename { .. } => "rename",
        Call::Getenv { .. } => "getenv",
        Call::GetEnviron => "get_environ",
        Call::DateToday => "date_today",
        Call::DateTimeNow { .. } => "date_time_now",
    }
}

/// An operating system call goes by its own name, whatever it is called with: a
/// reader of the name knows the call.
pub proof fn law_call_name_identifies_the_call(call: Call)
    ensures
        call_name_text(call) == "exists"@ <==> call is Exists,
        call_name_text(call) == "is_file"@ <==> call is IsFile,
        call_name_text(call) == "is_dir"@ <==> call is IsDir,
        call_name_text(call) == "is_symlink"@ <==> call is IsSymlink,
        call_name_text(call) == "read_text"@ <==> call is ReadText,
        call_name_text(call) == "read_bytes"@ <==> call is ReadBytes,
        call_name_text(call) == "stat"@ <==> call is Stat,
        call_name_text(call) == "iterdir"@ <==> call is Iterdir,
        call_name_text(call) == "resolve"@ <==> call is Resolve,
        call_name_text(call) == "absolute"@ <==> call is Absolute,
        call_name_text(call) == "unlink"@ <==> call is Unlink,
        call_name_text(call) == "rmdir"@ <==> call is Rmdir,
        call_name_text(call) == "write_text"@ <==> call is WriteText,
        call_name_text(call) == "append_text"@ <==> call is AppendText,
        call_name_text(call) == "write_bytes"@ <==> call is WriteBytes,
        call_name_text(call) == "append_bytes"@ <==> call is AppendBytes,
        call_name_text(call) == "open"@ <==> call is Open,
        call_name_text(call) == "mkdir"@ <==> call is Mkdir,
        call_name_text(call) == "rename"@ <==> call is Rename,
        call_name_text(call) == "getenv"@ <==> call is Getenv,
        call_name_text(call) == "get_environ"@ <==> call is GetEnviron,
        call_name_text(call) == "date_today"@ <==> call is DateToday,
        call_name_text(call) == "date_time_now"@ <==> call is DateTimeNow,
{
    reveal_strlit("exists");
    reveal_strlit("is_file");
    reveal_strlit("is_dir");
    reveal_strlit("is_symlink");
    reveal_strlit("read_text");
    reveal_strlit("read_bytes");
    reveal_strlit("stat");
    reveal_strlit("iterdir");
    reveal_strlit("resolve");
    reveal_strlit("absolute");
    reveal_strlit("unlink");
    reveal_strlit("rmdir");
    reveal_strlit("write_text");
    reveal_strlit("append_text");
    reveal_strlit("write_bytes");
    reveal_strlit("append_bytes");
    reveal_strlit("open");
    reveal_strlit("mkdir");
    reveal_strlit("rename");
    reveal_strlit("getenv");
    reveal_strlit("get_environ");
    reveal_strlit("date_today");
    reveal_strlit("date_time_now");
    assert("exists"@.len() == 6);
    assert("is_file"@.len() == 7);
    assert("is_dir"@.len() == 6);
    assert("is_symlink"@.len() == 10);
    assert("read_text"@.len() == 9);
    assert("read_bytes"@.len() == 10);
    assert("stat"@.len() == 4);
    assert("iterdir"@.len() == 7);
    assert("resolve"@.len() == 7);
    assert("absolute"@.len() == 8);
    assert("unlink"@.len() == 6);
    assert("rmdir"@.len() == 5);
    assert("write_text"@.len() == 10);
    assert("append_text"@.len() == 11);
    assert("write_bytes"@.len() == 11);
    assert("append_bytes"@.len() == 12);
    assert("open"@.len() == 4);
    assert("mkdir"@.len() == 5);
    assert("rename"@.len() == 6);
    assert("getenv"@.len() == 6);
    assert("get_environ"@.len() == 11);
    assert("date_today"@.len() == 10);
    assert("date_time_now"@.len() == 13);
    assert("exists"@[0] == 'e');
    assert("is_dir"@[0] == 'i');
    assert("unlink"@[0] == 'u');
    assert("rename"@[0] == 'r');
    assert("getenv"@[0] == 'g');
    assert("is_file"@[1] == 's');
    assert("iterdir"@[1] == 't');
    assert("is_file"@[0] == 'i');
    assert("resolve"@[0] == 'r');
    assert("is_symlink"@[0] == 'i');
    assert("read_bytes"@[0] == 'r');
    assert("write_text"@[0] == 'w');
    assert("date_today"@[0] == 'd');
    assert("stat"@[0] == 's');
    assert("open"@[0] == 'o');
    assert("iterdir"@[0] == 'i');
    assert("rmdir"@[0] == 'r');
    assert("mkdir"@[0] == 'm');
    assert("append_text"@[0] == 'a');
    assert("write_bytes"@[0] == 'w');
    assert("get_environ"@[0] == 'g');
}

/// A print is told apart by its stream; a stream that is not known is none of the
/// two.
pub proof fn law_stream_name_identifies_the_stream(stream: Option<PrintStream>)
    ensures
        stream_name(stream) == "stdout"@ <==> stream == Some(PrintStream::Stdout),
        stream_name(stream) == "stderr"@ <==> stream == Some(PrintStream::Stderr),
        stream_name(stream) == "unspecified"@ <==> (stream is None || stream == Some(
            PrintStream::Unspecified,
        )),
{
    reveal_strlit("stdout");
    reveal_strlit("stderr");
    reveal_strlit("unspecified");
    assert("stdout"@.len() == 6);
    assert("stderr"@.len() == 6);
    assert("unspecified"@.len() == 11);
    assert("stdout"@[3] == 'o');
    assert("stderr"@[3] == 'e');
}

} // verus!
