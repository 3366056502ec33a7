//! The SDK's command server (port 7000) behind a backend trait: register,
//! unregister, and send a command and read back its textual answer.

use vstd::prelude::*;
use vstd::string::StringSliceAdditionalSpecFns;

use crate::platform::{is_hardware_failure, is_invalid_parameter, is_timeout, PlatformError, PlatformResult};
use crate::text::{dec_int, fmt_i64};

verus! {

/// Default command-server port of the Anyka reference services.
pub const DEFAULT_CMD_SERVER_PORT: u32 = 7000;
/// Timeout of [`command_send`], in milliseconds.
pub const DEFAULT_CMD_TIMEOUT_MS: u64 = 400;
/// Size of the buffer an answer is read into.
pub const CMD_RESULT_BUF_BYTES: usize = 4096;

/// The SDK's command-server entry points. Each `*_answer` relation holds of
/// the arguments and what a call with them may return.
/// A backend that does not define a relation allows every answer.
pub trait IpcFfiTrait {
    /// `r` is a status that registering a server named `name` on `port` may
    /// return.
    closed spec fn register_answer(&self, port: u32, name: Seq<char>, r: i32) -> bool {
        true
    }

    /// `r` is a status that unregistering the server on `port` may return.
    closed spec fn unregister_answer(&self, port: u32, r: i32) -> bool {
        true
    }

    /// Sending `command` to `port` with `timeout_ms`, into a buffer that held
    /// `room`, may leave `answer` in the buffer and return `r`.
    closed spec fn send_answer(&self, port: u32, command: Seq<char>, room: Seq<u8>, timeout_ms: u64, answer: Seq<u8>, r: i32) -> bool {
        true
    }

    /// Register a command server named `name` on `port`; an SDK status code.
    fn cmd_server_register(&self, port: u32, name: &str) -> (r: i32)
        ensures
            self.register_answer(port, name@, r),
    ;

    /// Unregister the command server on `port`; an SDK status code.
    fn cmd_server_unregister(&self, port: u32) -> (r: i32)
        ensures
            self.unregister_answer(port, r),
    ;

    /// Send `command` and write the answer into `result`, whose length is the
    /// room offered; the number of answer bytes, 0 on timeout, negative on error.
    fn cmd_send(&self, port: u32, command: &str, result: &mut Vec<u8>, timeout_ms: u64) -> (r: i32)
        ensures
            self.send_answer(port, command@, old(result)@, timeout_ms, final(result)@, r),
    ;
}

/// The host build's command-server backend: registration succeeds and every
/// command is answered with `[stub]` and a newline.
pub struct StubIpcFfi;

/// The bytes of the host backend's answer: `[stub]` and a newline.
pub open spec fn stub_answer() -> Seq<u8> {
    seq![0x5bu8, 0x73u8, 0x74u8, 0x75u8, 0x62u8, 0x5du8, 0x0au8]
}

/// What the host backend writes and returns for a buffer that held `room`:
/// as much of `[stub]` and a newline as fits before a terminating NUL.
pub open spec fn stub_send_answer(room: Seq<u8>, answer: Seq<u8>, r: i32) -> bool {
    &&& room.len() == 0 ==> r == 0 && answer == room
    &&& room.len() > 0 ==> {
        let n: int = if room.len() - 1 < 7 { room.len() - 1 } else { 7 };
        &&& r == n
        &&& answer.len() == room.len()
        &&& answer.subrange(0, n) == stub_answer().subrange(0, n)
        &&& answer[n] == 0u8
    }
}

impl IpcFfiTrait for StubIpcFfi {
    open spec fn register_answer(&self, port: u32, name: Seq<char>, r: i32) -> bool {
        r == 0
    }

    open spec fn unregister_answer(&self, port: u32, r: i32) -> bool {
        r == 0
    }

    open spec fn send_answer(&self, port: u32, command: Seq<char>, room: Seq<u8>, timeout_ms: u64, answer: Seq<u8>, r: i32) -> bool {
        stub_send_answer(room, answer, r)
    }

    fn cmd_server_register(&self, _port: u32, _name: &str) -> (r: i32)
        ensures
            r == 0,
    {
        0
    }

    fn cmd_server_unregister(&self, _port: u32) -> (r: i32)
        ensures
            r == 0,
    {
        0
    }

    fn cmd_send(&self, _port: u32, _command: &str, result: &mut Vec<u8>, _timeout_ms: u64) -> (r: i32)
        ensures
            old(result)@.len() == 0 ==> r == 0 && final(result)@ == old(result)@,
            old(result)@.len() > 0 ==> {
                let n: int = if old(result)@.len() - 1 < 7 { old(result)@.len() - 1 } else { 7 };
                &&& r == n
                &&& final(result)@.len() == old(result)@.len()
                &&& final(result)@.subrange(0, n) == stub_answer().subrange(0, n)
                &&& final(result)@[n] == 0u8
            },
    {
        let answer: [u8; 7] = [0x5b, 0x73, 0x74, 0x75, 0x62, 0x5d, 0x0a];
        assert(answer@ == stub_answer());
        if result.len() == 0 {
            return 0;
        }
        let max_copy = result.len() - 1;
        let copy_len = if max_copy < 7 { max_copy } else { 7 };
        let mut i: usize = 0;
        while i < copy_len
            invariant
                copy_len < result.len(),
                copy_len <= 7,
                i <= copy_len,
                result@.len() == old(result)@.len(),
                answer@ == stub_answer(),
                forall|k: int| 0 <= k < i ==> result@[k] == stub_answer()[k],
            decreases copy_len - i,
        {
            result.set(i, answer[i]);
            i = i + 1;
        }
        result.set(copy_len, 0);
        assert(result@.subrange(0, copy_len as int) =~= stub_answer().subrange(0, copy_len as int));
        copy_len as i32
    }
}

/// Message of a failed command-server call.
pub open spec fn msg_command_failed(operation: Seq<char>, ret: i32) -> Seq<char> {
    operation + " failed with error code "@ + dec_int(ret as int)
}

/// What a command-server status means for `res`: 0 is success, anything
/// else fails.
pub open spec fn command_result_ok(ret: i32, operation: Seq<char>, res: PlatformResult<()>) -> bool {
    &&& ret == 0 ==> res is Ok
    &&& ret != 0 ==> is_hardware_failure(res, msg_command_failed(operation, ret))
}

/// Outcome of a command-server call: 0 is success, anything else fails.
pub fn check_command_result(ret: i32, operation: &str) -> (res: PlatformResult<()>)
    ensures
        command_result_ok(ret, operation@, res),
{
    if ret == 0 {
        Ok(())
    } else {
        let mut m = String::from_str(operation);
        m.append(" failed with error code ");
        m.append(fmt_i64(ret as i64).as_str());
        Err(PlatformError::HardwareFailure(m))
    }
}

/// Whether the bytes of `s` hold a NUL, which a C string cannot carry.
pub fn has_nul_byte(s: &str) -> (b: bool)
    ensures
        b == s.spec_bytes().contains(0u8),
{
    let bytes = s.as_bytes();
    let mut i: usize = 0;
    while i < bytes.len()
        invariant
            bytes@ == s.spec_bytes(),
            i <= bytes@.len(),
            forall|k: int| 0 <= k < i ==> bytes@[k] != 0u8,
        decreases bytes@.len() - i,
    {
        if bytes[i] == 0 {
            assert(bytes@[i as int] == 0u8);
            return true;
        }
        i = i + 1;
    }
    false
}

/// The characters of bytes below 0x80, one per byte.
pub open spec fn ascii_text(b: Seq<u8>) -> Seq<char> {
    Seq::new(b.len(), |i: int| b[i] as char)
}

/// The text `String::from_utf8_lossy` makes of `b`: valid UTF-8 decoded as
/// it is, each invalid sequence replaced by U+FFFD.
pub uninterp spec fn utf8_lossy_text(b: Seq<u8>) -> Seq<char>;

/// `String::from_utf8_lossy`: the result is [`utf8_lossy_text`] of the bytes,
/// a function of the bytes alone; on ASCII input each byte is the character
/// with its code.
#[verifier::external_body]
fn utf8_lossy(bytes: &[u8]) -> (s: String)
    ensures
        s@ == utf8_lossy_text(bytes@),
        (forall|i: int| 0 <= i < bytes@.len() ==> bytes@[i] < 0x80u8) ==> s@ == ascii_text(bytes@),
{
    String::from_utf8_lossy(bytes).into_owned()
}

/// The index of the first NUL in `b`, or its length when there is none.
pub open spec fn first_nul(b: Seq<u8>, i: int) -> bool {
    0 <= i <= b.len() && (forall|k: int| 0 <= k < i ==> b[k] != 0u8) && (i == b.len() || b[i] == 0u8)
}

/// The first `ret` bytes of an answer buffer, at most all of it.
pub open spec fn answer_bytes(result: Seq<u8>, ret: int) -> Seq<u8> {
    result.subrange(0, if ret < result.len() { ret } else { result.len() as int })
}

/// What a command's answer comes to: a negative count is an error code, 0 a
/// timeout; otherwise the first `ret` bytes of the buffer (at most all of
/// it), cut at the first NUL, decoded lossily as UTF-8.
pub open spec fn send_outcome(ret: i32, result: Seq<u8>, res: PlatformResult<String>) -> bool {
    &&& ret < 0 ==> is_hardware_failure(res, "ak_cmd_send failed with error code "@ + dec_int(ret as int))
    &&& ret == 0 ==> is_timeout(res)
    &&& ret > 0 ==> res is Ok && exists|n: int|
        #[trigger] first_nul(answer_bytes(result, ret as int), n)
        && res.unwrap()@ == utf8_lossy_text(result.subrange(0, n))
        && ((forall|i: int| 0 <= i < n ==> result[i] < 0x80u8) ==> res.unwrap()@ == ascii_text(result.subrange(0, n)))
}

/// Decode a command's answer: see [`send_outcome`].
pub fn command_send_outcome(ret: i32, result: &[u8]) -> (res: PlatformResult<String>)
    ensures
        send_outcome(ret, result@, res),
{
    if ret < 0 {
        let mut m = String::from_str("ak_cmd_send failed with error code ");
        m.append(fmt_i64(ret as i64).as_str());
        return Err(PlatformError::HardwareFailure(m));
    }
    if ret == 0 {
        return Err(PlatformError::Timeout);
    }
    let used_len = if (ret as usize) < result.len() { ret as usize } else { result.len() };
    let mut nul_pos: usize = 0;
    while nul_pos < used_len && result[nul_pos] != 0
        invariant
            used_len <= result@.len(),
            nul_pos <= used_len,
            forall|k: int| 0 <= k < nul_pos ==> result@[k] != 0u8,
        decreases used_len - nul_pos,
    {
        nul_pos = nul_pos + 1;
    }
    let text = vstd::slice::slice_subrange(result, 0, nul_pos);
    let s = utf8_lossy(text);
    proof {
        let used = answer_bytes(result@, ret as int);
        assert(used == result@.subrange(0, used_len as int));
        assert(first_nul(used, nul_pos as int));
        assert(text@ =~= result@.subrange(0, nul_pos as int));
    }
    Ok(s)
}

/// Register a command server named `name` on `port` through `ffi`.
pub fn command_server_register_internal<F: IpcFfiTrait>(port: u32, name: &str, ffi: &F) -> (res:
    PlatformResult<()>)
    ensures
        exists|ret: i32|
            #[trigger] ffi.register_answer(port, name@, ret) && command_result_ok(ret, "ak_cmd_server_register"@, res),
{
    let ret = ffi.cmd_server_register(port, name);
    let res = check_command_result(ret, "ak_cmd_server_register");
    assert(ffi.register_answer(port, name@, ret) && command_result_ok(ret, "ak_cmd_server_register"@, res));
    res
}

/// Unregister the command server on `port` through `ffi`.
pub fn command_server_unregister_internal<F: IpcFfiTrait>(port: u32, ffi: &F) -> (res:
    PlatformResult<()>)
    ensures
        exists|ret: i32|
            #[trigger] ffi.unregister_answer(port, ret) && command_result_ok(ret, "ak_cmd_server_unregister"@, res),
{
    let ret = ffi.cmd_server_unregister(port);
    let res = check_command_result(ret, "ak_cmd_server_unregister");
    assert(ffi.unregister_answer(port, ret) && command_result_ok(ret, "ak_cmd_server_unregister"@, res));
    res
}

/// The answer buffer a command is sent with: [`CMD_RESULT_BUF_BYTES`] zero bytes.
pub open spec fn zeroed_answer_buffer() -> Seq<u8> {
    Seq::new(CMD_RESULT_BUF_BYTES as nat, |i: int| 0u8)
}

/// Whether a command of `len` bytes and its terminating NUL overflow the
/// SDK's `u32` length.
pub open spec fn command_too_long(len: nat) -> bool {
    len + 1 > u32::MAX
}

/// Send `command` (a C string, so free of NUL bytes) through `ffi` with a
/// [`CMD_RESULT_BUF_BYTES`] answer buffer, and decode the answer as
/// [`command_send_outcome`] does.
pub fn command_send_internal<F: IpcFfiTrait>(port: u32, command: &str, timeout_ms: u64, ffi: &F) -> (res:
    PlatformResult<String>)
    requires
        !command.spec_bytes().contains(0u8),
    ensures
        command_too_long(command.spec_bytes().len()) ==> is_invalid_parameter(res, "IPC command is too long for Anyka SDK"@),
        !command_too_long(command.spec_bytes().len()) ==> exists|ret: i32, buf: Seq<u8>|
            #[trigger] ffi.send_answer(port, command@, zeroed_answer_buffer(), timeout_ms, buf, ret)
                && send_outcome(ret, buf, res),
{
    let len = command.as_bytes().len();
    if len >= 0xffff_ffff {
        return Err(PlatformError::InvalidParameter(String::from_str("IPC command is too long for Anyka SDK")));
    }
    let mut result_buf: Vec<u8> = vec![0u8; CMD_RESULT_BUF_BYTES];
    assert(result_buf@ =~= zeroed_answer_buffer());
    let ret = ffi.cmd_send(port, command, &mut result_buf, timeout_ms);
    let res = command_send_outcome(ret, result_buf.as_slice());
    assert(ffi.send_answer(port, command@, zeroed_answer_buffer(), timeout_ms, result_buf@, ret)
        && send_outcome(ret, result_buf@, res));
    res
}

/// Register a command server named `name` on the default port (host build's backend).
pub fn command_server_register(name: &str) -> (res: PlatformResult<()>)
    ensures
        name.spec_bytes().contains(0u8) ==> is_invalid_parameter(res, "Command server name contains null byte"@),
        !name.spec_bytes().contains(0u8) ==> res is Ok,
{
    if has_nul_byte(name) {
        return Err(PlatformError::InvalidParameter(String::from_str("Command server name contains null byte")));
    }
    let ret = StubIpcFfi.cmd_server_register(DEFAULT_CMD_SERVER_PORT, name);
    check_command_result(ret, "ak_cmd_server_register")
}

/// Unregister the command server on the default port (host build's backend).
pub fn command_server_unregister() -> (res: PlatformResult<()>)
    ensures
        res is Ok,
{
    let ret = StubIpcFfi.cmd_server_unregister(DEFAULT_CMD_SERVER_PORT);
    check_command_result(ret, "ak_cmd_server_unregister")
}

/// Send a command to the server on the default port with a bounded timeout
/// (host build's backend, which answers every command with `[stub]` and a
/// newline).
pub fn command_send_with_timeout(command: &str, timeout_ms: u64) -> (res: PlatformResult<String>)
    ensures
        command.spec_bytes().contains(0u8) ==> is_invalid_parameter(res, "IPC command contains null byte"@),
        !command.spec_bytes().contains(0u8) && command_too_long(command.spec_bytes().len())
            ==> is_invalid_parameter(res, "IPC command is too long for Anyka SDK"@),
        !command.spec_bytes().contains(0u8) && !command_too_long(command.spec_bytes().len())
            ==> (res matches Ok(s) && s@ == "[stub]\n"@),
{
    if has_nul_byte(command) {
        return Err(PlatformError::InvalidParameter(String::from_str("IPC command contains null byte")));
    }
    let len = command.as_bytes().len();
    if len >= 0xffff_ffff {
        return Err(PlatformError::InvalidParameter(String::from_str("IPC command is too long for Anyka SDK")));
    }
    let mut result_buf: Vec<u8> = vec![0u8; CMD_RESULT_BUF_BYTES];
    let ret = StubIpcFfi.cmd_send(DEFAULT_CMD_SERVER_PORT, command, &mut result_buf, timeout_ms);
    let res = command_send_outcome(ret, result_buf.as_slice());
    proof {
        reveal_strlit("[stub]\n");
        let b = result_buf@;
        assert(ret == 7);
        assert(answer_bytes(b, 7) =~= stub_answer());
        let n = choose|n: int| #[trigger] first_nul(answer_bytes(b, 7), n);
        assert(first_nul(stub_answer(), n));
        if n < 7 {
            assert(stub_answer()[n] != 0u8);
        }
        assert(n == 7);
        assert(ascii_text(b.subrange(0, 7)) =~= "[stub]\n"@);
    }
    res
}

/// Send a command to the server on the default port with the short default
/// timeout (host build's backend).
pub fn command_send(command: &str) -> (res: PlatformResult<String>)
    ensures
        command.spec_bytes().contains(0u8) ==> is_invalid_parameter(res, "IPC command contains null byte"@),
        !command.spec_bytes().contains(0u8) && command_too_long(command.spec_bytes().len())
            ==> is_invalid_parameter(res, "IPC command is too long for Anyka SDK"@),
        !command.spec_bytes().contains(0u8) && !command_too_long(command.spec_bytes().len())
            ==> (res matches Ok(s) && s@ == "[stub]\n"@),
{
    command_send_with_timeout(command, DEFAULT_CMD_TIMEOUT_MS)
}

} // verus!
