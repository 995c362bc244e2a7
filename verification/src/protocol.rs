//! The named-pipe protocol: request and response frames, the state of a
//! connection (its timeout and whether a timeout has broken it), a
//! terminal's pipe name, and the discovery of running terminals.
//!
//! A request frame is `[total length u32][command u32][parameters]`, where
//! the total length is 4 plus the parameters' length. A response frame is
//! `[payload length u32][command u32][success flag u32][data]`; a payload of
//! fewer than 8 bytes is invalid, and the data is the payload after its
//! 8-byte header.
use vstd::prelude::*;

use crate::codec::{string_bytes, units_at, units_le, units_le_bytes, units_text};
use crate::digest::{hex_encode, hex_lower, sha256, sha256_digest};
use crate::error::{Mt5Error, Result};
use crate::text::{
    decimal, decimal_string, has_no_nul, lemma_until_nul_none, lemma_utf16_no_nul,
    lemma_utf16_roundtrip, lowercase, to_lowercase, to_uppercase, until_nul, uppercase,
    utf16_encode, utf16_lossy, utf16_units, string_from_utf16_lossy,
};
use crate::wire::{get_u32_le, le_u32, lemma_u32_roundtrip, push_bytes, push_u32_le, u32_le_bytes};

verus! {

/// The default time to wait for a response, in milliseconds.
pub const DEFAULT_TIMEOUT_MS: u64 = 3000;

/// The request frame of command `cmd` with parameters `data`.
pub open spec fn request_frame(cmd: u32, data: Seq<u8>) -> Seq<u8> {
    u32_le_bytes(((4 + data.len()) as u32) as int) + u32_le_bytes(cmd as int) + data
}

/// Builds the request frame of command `cmd` with parameters `data`.
pub fn encode_request_frame(cmd: u32, data: &[u8]) -> (v: Vec<u8>)
    requires
        data@.len() + 8 <= usize::MAX,
    ensures
        v@ == request_frame(cmd, data@),
{
    let total_len = 4 + data.len();
    let mut request: Vec<u8> = Vec::new();
    push_u32_le(&mut request, total_len as u32);
    push_u32_le(&mut request, cmd);
    push_bytes(&mut request, data);
    request
}

/// Whether `e` is an invalid-response error with the text `msg`.
pub open spec fn invalid_response(e: Mt5Error, msg: Seq<char>) -> bool {
    e matches Mt5Error::InvalidResponse(m) && m@ == msg
}

/// Reads the payload length at the head of a response frame; a payload too
/// small to hold the 8-byte response header is invalid.
pub fn parse_payload_len(len_buf: [u8; 4]) -> (res: Result<usize>)
    ensures
        le_u32(len_buf@, 0) < 8 ==> (res matches Err(e) && invalid_response(
            e,
            "Payload too small: "@ + decimal(le_u32(len_buf@, 0)) + " bytes"@,
        )),
        le_u32(len_buf@, 0) >= 8 ==> res == Ok::<usize, Mt5Error>(le_u32(len_buf@, 0) as usize),
{
    let payload_len = get_u32_le(len_buf.as_slice(), 0) as usize;
    if payload_len < 8 {
        let n = decimal_string(payload_len as i128);
        return Err(
            Mt5Error::InvalidResponse(
                String::from_str("Payload too small: ").concat(n.as_str()).concat(" bytes"),
            ),
        );
    }
    Ok(payload_len)
}

/// The text of a terminal's error message: `[unit count u32][UTF-16LE
/// units]`, cut at the first NUL and at the end of the data; too short data
/// gives the empty text.
pub open spec fn error_message_text(d: Seq<u8>) -> Seq<char> {
    if d.len() < 4 {
        Seq::empty()
    } else {
        let fit = (d.len() - 4) / 2;
        let n = if le_u32(d, 0) < fit {
            le_u32(d, 0)
        } else {
            fit
        };
        utf16_lossy(until_nul(units_at(d, 4, n)))
    }
}

/// Decodes a terminal's error message; it never fails, so that reporting an
/// error cannot fail in turn.
pub fn decode_error_message(data: &[u8]) -> (s: String)
    ensures
        s@ == error_message_text(data@),
{
    if data.len() < 4 {
        return String::new();
    }
    let char_count = get_u32_le(data, 0) as u64;
    let available = (data.len() - 4) as u64;
    let byte_count = if char_count * 2 < available {
        char_count * 2
    } else {
        available
    };
    units_text(data, 4, (byte_count / 2) as usize)
}

/// A message sent as a protocol string (as [`crate::codec::encode_string`]
/// writes it) is what [`decode_error_message`] reads, when it holds no NUL.
pub proof fn law_error_message_reads_string(s: Seq<char>)
    requires
        has_no_nul(s),
        utf16_encode(s).len() < 0x1_0000_0000,
    ensures
        error_message_text(string_bytes(s)) == s,
{
    let u = utf16_encode(s);
    let d = string_bytes(s);
    let body = units_le_bytes(u);
    lemma_u32_roundtrip(u.len() as int);
    assert(le_u32(d, 0) == le_u32(u32_le_bytes(u.len() as int), 0));
    assert(d.len() == 4 + 2 * u.len());
    let all = units_at(d, 4, u.len() as int);
    lemma_utf16_no_nul(s);
    assert forall|k: int| 0 <= k < u.len() implies all[k] == u[k] && all[k] != 0 by {
        assert(d[4 + 2 * k] == body[2 * k]);
        assert(d[4 + 2 * k + 1] == body[2 * k + 1]);
        assert((2 * k) / 2 == k && (2 * k) % 2 == 0);
        assert((2 * k + 1) / 2 == k && (2 * k + 1) % 2 == 1);
        assert(u[k] % 256 + 256 * (u[k] / 256) == u[k]);
    }
    assert(all =~= u);
    lemma_until_nul_none(u);
    lemma_utf16_roundtrip(s);
}

/// A request frame carries its total length (4 plus the parameters'), the
/// command, then the parameters unchanged.
pub proof fn law_request_frame_layout(cmd: u32, data: Seq<u8>)
    requires
        data.len() + 4 < 0x1_0000_0000,
    ensures
        request_frame(cmd, data).len() == data.len() + 8,
        le_u32(request_frame(cmd, data), 0) == data.len() + 4,
        le_u32(request_frame(cmd, data), 4) == cmd,
        request_frame(cmd, data).skip(8) == data,
{
    let f = request_frame(cmd, data);
    lemma_u32_roundtrip(data.len() + 4int);
    lemma_u32_roundtrip(cmd as int);
    let a = u32_le_bytes(((4 + data.len()) as u32) as int);
    let c = u32_le_bytes(cmd as int);
    assert(le_u32(f, 0) == le_u32(a, 0));
    assert(le_u32(f, 4) == le_u32(c, 0));
    assert(f.skip(8) =~= data);
}

/// The data of a response payload: all that follows its 8-byte header.
pub open spec fn payload_body(payload: Seq<u8>) -> Seq<u8> {
    payload.skip(8)
}

/// The error a failed response stands for: the terminal's code from the
/// first four bytes of the data (`-1` without them), and its message from the
/// rest.
pub open spec fn refusal(cmd: u32, body: Seq<u8>, e: Mt5Error) -> bool {
    e matches Mt5Error::CommandFailed { cmd: c, error_code, error } && c == cmd && error_code == (
    if body.len() >= 4 {
        le_u32(body, 0) as i32
    } else {
        -1i32
    }) && error@ == error_message_text(
        if body.len() > 4 {
            body.skip(4)
        } else {
            Seq::empty()
        },
    )
}

/// A refusal written as the terminal sends it, its code in four bytes and then
/// its message as a protocol string, stands for that code and message, when
/// the message holds no NUL.
pub proof fn law_refusal_round_trip(cmd: u32, code: i32, msg: Seq<char>, e: Mt5Error)
    requires
        has_no_nul(msg),
        utf16_encode(msg).len() < 0x1_0000_0000,
        refusal(cmd, u32_le_bytes((code as u32) as int) + string_bytes(msg), e),
    ensures
        e matches Mt5Error::CommandFailed { cmd: c, error_code, error } && c == cmd && error_code
            == code && error@ == msg,
{
    let head = u32_le_bytes((code as u32) as int);
    let rest = string_bytes(msg);
    let body = head + rest;
    lemma_u32_roundtrip((code as u32) as int);
    assert(le_u32(body, 0) == le_u32(head, 0));
    assert(((code as u32) as i32) == code) by (bit_vector);
    assert(body.skip(4) =~= rest);
    law_error_message_reads_string(msg);
}

/// Decodes the payload of a response to command `cmd`: when its success flag
/// (bytes 4 to 8) is set, the data after the header; otherwise the refusal
/// that the data describes.
pub fn decode_response_payload(cmd: u32, payload: &[u8]) -> (res: Result<Vec<u8>>)
    requires
        payload@.len() >= 8,
    ensures
        le_u32(payload@, 4) != 0 ==> (res matches Ok(body) && body@ == payload_body(payload@)),
        le_u32(payload@, 4) == 0 ==> (res matches Err(e) && refusal(cmd, payload_body(payload@), e)),
{
    let success = get_u32_le(payload, 4) != 0;
    let mut body: Vec<u8> = Vec::new();
    if payload.len() > 8 {
        push_bytes(&mut body, vstd::slice::slice_subrange(payload, 8, payload.len()));
    }
    assert(body@ =~= payload_body(payload@));
    if !success {
        let mut code: i32 = -1;
        if body.len() >= 4 {
            code = get_u32_le(body.as_slice(), 0) as i32;
        }
        let rest: Vec<u8> = if body.len() > 4 {
            let mut r: Vec<u8> = Vec::new();
            push_bytes(&mut r, vstd::slice::slice_subrange(body.as_slice(), 4, body.len()));
            r
        } else {
            Vec::new()
        };
        assert(rest@ =~= (if body@.len() > 4 {
            body@.skip(4)
        } else {
            Seq::<u8>::empty()
        }));
        let msg = decode_error_message(rest.as_slice());
        return Err(Mt5Error::CommandFailed { cmd, error_code: code, error: msg });
    }
    Ok(body)
}

/// The text of the error returned on a connection broken by a timeout.
pub open spec fn broken_text() -> Seq<char> {
    "连接已失效（此前发生过超时），请重新 initialize"@
}

/// The state of a pipe connection: the time to wait for each response (0
/// waits without limit) and whether a timeout has broken the connection.
/// Once broken, a connection stays broken: only a new connection clears it.
pub struct PipeState {
    timeout_ms: u64,
    broken: bool,
}

impl PipeState {
    /// The time to wait for each response, in milliseconds.
    pub closed spec fn wait_ms(&self) -> u64 {
        self.timeout_ms
    }

    /// Whether a timeout has broken the connection.
    pub closed spec fn is_broken_state(&self) -> bool {
        self.broken
    }

    /// The state after a timeout: broken, with the same time to wait.
    pub closed spec fn timed_out(self) -> PipeState {
        PipeState { broken: true, ..self }
    }

    /// The state with a new time to wait, broken or not as before.
    pub closed spec fn with_wait(self, timeout_ms: u64) -> PipeState {
        PipeState { timeout_ms, ..self }
    }

    /// A fresh connection's state, as a value.
    pub closed spec fn new_state(timeout_ms: u64) -> PipeState {
        PipeState { timeout_ms, broken: false }
    }

    /// A fresh connection's state.
    pub fn new(timeout_ms: u64) -> (s: Self)
        ensures
            s == PipeState::new_state(timeout_ms),
            s.wait_ms() == timeout_ms,
            !s.is_broken_state(),
    {
        PipeState { timeout_ms, broken: false }
    }

    /// Changes the time to wait; a broken connection stays broken.
    pub fn set_timeout_ms(&mut self, timeout_ms: u64)
        ensures
            *final(self) == old(self).with_wait(timeout_ms),
            final(self).wait_ms() == timeout_ms,
            final(self).is_broken_state() == old(self).is_broken_state(),
    {
        self.timeout_ms = timeout_ms;
    }

    /// The time to wait for each response, in milliseconds.
    pub fn timeout_ms(&self) -> (t: u64)
        ensures
            t == self.wait_ms(),
    {
        self.timeout_ms
    }

    /// Whether a response is awaited with a limit (a timeout of 0 means none).
    pub fn timeout_enabled(&self) -> (b: bool)
        ensures
            b == (self.wait_ms() != 0),
    {
        self.timeout_ms != 0
    }

    /// Whether a timeout has broken the connection.
    pub fn is_broken(&self) -> (b: bool)
        ensures
            b == self.is_broken_state(),
    {
        self.broken
    }

    /// Whether a request may be sent: not on a broken connection, which must
    /// be initialized again.
    pub fn ensure_usable(&self) -> (res: Result<()>)
        ensures
            !self.is_broken_state() ==> res is Ok,
            self.is_broken_state() ==> (res matches Err(Mt5Error::ConnectionFailed(m)) && m@
                == broken_text()),
    {
        if self.broken {
            return Err(
                Mt5Error::ConnectionFailed(
                    String::from_str("连接已失效（此前发生过超时），请重新 initialize"),
                ),
            );
        }
        Ok(())
    }

    /// A response did not come in time: the connection is marked broken (a
    /// late response left in the pipe would otherwise answer the next
    /// request), and the timeout error is returned.
    pub fn on_timeout(&mut self) -> (e: Mt5Error)
        ensures
            *final(self) == old(self).timed_out(),
            final(self).is_broken_state(),
            final(self).wait_ms() == old(self).wait_ms(),
            e matches Mt5Error::Timeout(m) && m@ == decimal(old(self).wait_ms() as int)
                + "ms 内未收到终端响应；连接已标记失效，请重新 initialize"@,
    {
        self.broken = true;
        let n = decimal_string(self.timeout_ms as i128);
        Mt5Error::Timeout(n.concat("ms 内未收到终端响应；连接已标记失效，请重新 initialize"))
    }
}

/// A timed-out connection refuses every later request, whatever timeout it
/// is given afterwards: only a new connection accepts requests again.
pub proof fn law_timeout_breaks_connection(s: PipeState, timeout_ms: u64)
    ensures
        s.timed_out().is_broken_state(),
        s.timed_out().with_wait(timeout_ms).is_broken_state(),
        s.timed_out().wait_ms() == s.wait_ms(),
        !PipeState::new_state(timeout_ms).is_broken_state(),
{
}

/// The pipe name for a terminal installed at `path`: the SHA-256 digest of
/// the UTF-16LE bytes of `\\?\` followed by the lower-cased path, in
/// upper-case hexadecimal, after `\\.\pipe\MT5.Terminal.`.
pub open spec fn pipe_name_of(path: Seq<char>) -> Seq<char> {
    "\\\\.\\pipe\\MT5.Terminal."@ + uppercase(
        hex_lower(sha256_digest(units_le_bytes(utf16_encode("\\\\?\\"@ + lowercase(path))))),
    )
}

/// Computes the pipe name of the terminal installed at `terminal_path`.
pub fn compute_pipe_name(terminal_path: &str) -> (name: String)
    ensures
        name@ == pipe_name_of(terminal_path@),
{
    let lower = to_lowercase(terminal_path);
    let input = String::from_str("\\\\?\\").concat(lower.as_str());
    let input_utf16 = utf16_units(input.as_str());
    let buf = units_le(input_utf16.as_slice());
    let result = sha256(buf.as_slice());
    let hex = hex_encode(result.as_slice());
    let upper = to_uppercase(hex.as_str());
    String::from_str("\\\\.\\pipe\\MT5.Terminal.").concat(upper.as_str())
}

/// A pipe name paths are the same for when they differ only in case.
pub proof fn law_pipe_name_ignores_case(a: Seq<char>, b: Seq<char>)
    requires
        lowercase(a) == lowercase(b),
    ensures
        pipe_name_of(a) == pipe_name_of(b),
{
}

/// A pipe name as the system API takes it: its UTF-16 units, then a NUL.
pub fn pipe_name_wide(name: &str) -> (w: Vec<u16>)
    ensures
        w@ == utf16_encode(name@).push(0),
{
    let mut w = utf16_units(name);
    w.push(0);
    w
}

/// The text of the error for a missing pipe name.
pub open spec fn missing_pipe_text() -> Seq<char> {
    "Pipe name must be provided. Use initialize(Some(\"pipe_name\"))"@
}

/// The pipe to connect to: the name given, or a connection failure when
/// there is none.
pub fn pipe_target(pipe_name: Option<&str>) -> (res: Result<String>)
    ensures
        pipe_name matches Some(n) ==> (res matches Ok(s) && s@ == n@),
        pipe_name is None ==> (res matches Err(Mt5Error::ConnectionFailed(m)) && m@
            == missing_pipe_text()),
{
    match pipe_name {
        Some(n) => Ok(String::from_str(n)),
        None => Err(
            Mt5Error::ConnectionFailed(
                String::from_str("Pipe name must be provided. Use initialize(Some(\"pipe_name\"))"),
            ),
        ),
    }
}

/// The error for a pipe that could not be opened.
pub fn connection_refused(name: &str) -> (e: Mt5Error)
    ensures
        e matches Mt5Error::ConnectionFailed(m) && m@ == "Failed to connect to pipe: "@ + name@,
{
    Mt5Error::ConnectionFailed(String::from_str("Failed to connect to pipe: ").concat(name))
}

/// The texts of a sequence of strings.
pub open spec fn texts(v: Seq<String>) -> Seq<Seq<char>> {
    Seq::new(v.len(), |i: int| v[i]@)
}

/// Whether the pipe of the `i`-th path answered.
pub open spec fn responds(responding: Seq<bool>, i: int) -> bool {
    0 <= i < responding.len() && responding[i]
}

/// The `(path, pipe name)` pairs of the paths whose pipe answered, in order.
pub open spec fn live_terminals(paths: Seq<Seq<char>>, responding: Seq<bool>) -> Seq<
    (Seq<char>, Seq<char>),
>
    decreases paths.len(),
{
    if paths.len() == 0 {
        seq![]
    } else {
        let prev = live_terminals(paths.drop_last(), responding);
        if responds(responding, paths.len() - 1) {
            prev.push((paths.last(), pipe_name_of(paths.last())))
        } else {
            prev
        }
    }
}

/// The texts of a sequence of string pairs.
pub open spec fn pair_texts(v: Seq<(String, String)>) -> Seq<(Seq<char>, Seq<char>)> {
    Seq::new(v.len(), |i: int| (v[i].0@, v[i].1@))
}

/// The running terminals whose pipe answers: for each path of `paths`, in
/// order, the path and its pipe name when `responding` says its pipe answered.
/// When the paths could not be found there are none.
pub fn discover_all_terminals(paths: Result<Vec<String>>, responding: &Vec<bool>) -> (found: Vec<
    (String, String),
>)
    ensures
        paths is Err ==> found@.len() == 0,
        paths matches Ok(p) ==> pair_texts(found@) == live_terminals(texts(p@), responding@),
{
    let paths = match paths {
        Ok(p) => p,
        Err(_) => {
            return Vec::new();
        },
    };
    let ghost all = texts(paths@);
    let mut terminals: Vec<(String, String)> = Vec::new();
    let mut i: usize = 0;
    while i < paths.len()
        invariant
            i <= paths@.len(),
            all == texts(paths@),
            pair_texts(terminals@) == live_terminals(all.take(i as int), responding@),
        decreases paths@.len() - i,
    {
        let ghost prev = terminals@;
        assert(all.take(i + 1).drop_last() =~= all.take(i as int));
        if i < responding.len() && responding[i] {
            let pipe_name = compute_pipe_name(paths[i].as_str());
            let path = paths[i].clone();
            terminals.push((path, pipe_name));
            assert(pair_texts(terminals@) =~= pair_texts(prev).push((all[i as int], pipe_name_of(all[i as int]))));
        }
        i = i + 1;
    }
    assert(all.take(i as int) =~= all);
    terminals
}

/// The pipe names of the running terminals whose pipe answers.
pub fn discover_all_mt5_pipes(paths: Result<Vec<String>>, responding: &Vec<bool>) -> (pipes: Vec<
    String,
>)
    ensures
        paths is Err ==> pipes@.len() == 0,
        paths matches Ok(p) ==> texts(pipes@) == live_terminals(texts(p@), responding@).map_values(
            |t: (Seq<char>, Seq<char>)| t.1,
        ),
{
    let terminals = discover_all_terminals(paths, responding);
    let ghost all = pair_texts(terminals@);
    let mut pipes: Vec<String> = Vec::new();
    let mut i: usize = 0;
    while i < terminals.len()
        invariant
            i <= terminals@.len(),
            all == pair_texts(terminals@),
            texts(pipes@) == all.take(i as int).map_values(|t: (Seq<char>, Seq<char>)| t.1),
        decreases terminals@.len() - i,
    {
        let pipe = terminals[i].1.clone();
        assert(all[i as int].1 == pipe@);
        let ghost before = texts(pipes@);
        pipes.push(pipe);
        assert(texts(pipes@) =~= before.push(pipe@));
        assert(all.take(i + 1).map_values(|t: (Seq<char>, Seq<char>)| t.1) =~= all.take(
            i as int,
        ).map_values(|t: (Seq<char>, Seq<char>)| t.1).push(all[i as int].1));
        i = i + 1;
    }
    assert(all.take(i as int) =~= all);
    pipes
}

/// Whether `k` is the first path whose pipe answered.
pub open spec fn first_responding(paths: Seq<Seq<char>>, responding: Seq<bool>, k: int) -> bool {
    &&& 0 <= k < paths.len()
    &&& responds(responding, k)
    &&& forall|j: int| 0 <= j < k ==> !responds(responding, j)
}

/// The pipe name of the first path whose pipe answers. Some pipe must
/// answer.
pub fn discover_mt5_pipe(paths: Result<Vec<String>>, responding: &Vec<bool>) -> (name: String)
    requires
        paths matches Ok(p) && exists|i: int| 0 <= i < p@.len() && responds(responding@, i),
    ensures
        paths matches Ok(p) && exists|k: int|
            #[trigger] first_responding(texts(p@), responding@, k) && name@ == pipe_name_of(
                p@[k]@,
            ),
{
    let list = match paths {
        Ok(p) => p,
        Err(_) => {
            return String::new();
        },
    };
    let mut i: usize = 0;
    while i < list.len()
        invariant
            paths == Ok::<Vec<String>, Mt5Error>(list),
            i <= list@.len(),
            exists|j: int| 0 <= j < list@.len() && responds(responding@, j),
            forall|j: int| 0 <= j < i ==> !responds(responding@, j),
        decreases list@.len() - i,
    {
        if i < responding.len() && responding[i] {
            let name = compute_pipe_name(list[i].as_str());
            assert(first_responding(texts(list@), responding@, i as int));
            assert(name@ == pipe_name_of(list@[i as int]@));
            assert(exists|k: int|
                #[trigger] first_responding(texts(list@), responding@, k) && name@ == pipe_name_of(
                    list@[k]@,
                ));
            assert(paths is Ok);
            assert(paths->Ok_0 == list);
            return name;
        }
        i = i + 1;
    }
    String::new()
}

/// Units with their trailing NUL units removed.
pub open spec fn trim_trailing_nul(u: Seq<u16>) -> Seq<u16>
    decreases u.len(),
{
    if u.len() > 0 && u.last() == 0 {
        trim_trailing_nul(u.drop_last())
    } else {
        u
    }
}

/// Whether a process's executable name (UTF-16, NUL-padded) names the
/// terminal: decoded, without its trailing NULs, lower-cased, it is
/// `terminal64.exe`.
pub fn is_terminal_exe(exe_file: &[u16]) -> (b: bool)
    ensures
        b == (lowercase(utf16_lossy(trim_trailing_nul(exe_file@))) == "terminal64.exe"@),
{
    let mut n = exe_file.len();
    assert(exe_file@.take(n as int) =~= exe_file@);
    while n > 0 && exe_file[n - 1] == 0
        invariant
            n <= exe_file@.len(),
            trim_trailing_nul(exe_file@) == trim_trailing_nul(exe_file@.take(n as int)),
        decreases n,
    {
        assert(exe_file@.take(n as int).drop_last() =~= exe_file@.take(n - 1));
        n = n - 1;
    }
    let trimmed = vstd::slice::slice_subrange(exe_file, 0, n);
    assert(trimmed@ =~= exe_file@.take(n as int));
    let name = string_from_utf16_lossy(trimmed);
    let lower = to_lowercase(name.as_str());
    let expected = String::from_str("terminal64.exe");
    lower == expected
}

/// Keeps the first occurrence of each text, in order.
pub open spec fn first_occurrences(s: Seq<Seq<char>>) -> Seq<Seq<char>>
    decreases s.len(),
{
    if s.len() == 0 {
        seq![]
    } else {
        let d = first_occurrences(s.drop_last());
        if d.contains(s.last()) {
            d
        } else {
            d.push(s.last())
        }
    }
}

/// The texts kept are exactly those that occur.
pub proof fn lemma_first_occurrences_contains(s: Seq<Seq<char>>, x: Seq<char>)
    ensures
        first_occurrences(s).contains(x) == s.contains(x),
    decreases s.len(),
{
    if s.len() > 0 {
        lemma_first_occurrences_contains(s.drop_last(), x);
        let d = first_occurrences(s.drop_last());
        if s.drop_last().contains(x) {
            let k = choose|k: int| 0 <= k < s.drop_last().len() && s.drop_last()[k] == x;
            assert(s[k] == x);
        }
        if s.contains(x) && x != s.last() {
            let k = choose|k: int| 0 <= k < s.len() && s[k] == x;
            assert(k != s.len() - 1);
            assert(s.drop_last()[k] == x);
        }
        if !d.contains(s.last()) {
            assert(d.push(s.last())[d.len() as int] == s.last());
            if d.contains(x) {
                let k = choose|k: int| 0 <= k < d.len() && d[k] == x;
                assert(d.push(s.last())[k] == x);
            }
            if d.push(s.last()).contains(x) && x != s.last() {
                let k = choose|k: int| 0 <= k < d.len() + 1 && d.push(s.last())[k] == x;
                assert(d[k] == x);
            }
        }
        assert(s[s.len() - 1] == s.last());
    }
}

/// Whether `s` holds no text twice.
pub open spec fn no_duplicates(s: Seq<Seq<char>>) -> bool {
    forall|i: int, j: int| 0 <= i < j < s.len() ==> s[i] != s[j]
}

/// Keeping first occurrences leaves no text twice.
pub proof fn lemma_first_occurrences_distinct(s: Seq<Seq<char>>)
    ensures
        no_duplicates(first_occurrences(s)),
    decreases s.len(),
{
    if s.len() > 0 {
        lemma_first_occurrences_distinct(s.drop_last());
        let d = first_occurrences(s.drop_last());
        if !d.contains(s.last()) {
            let e = d.push(s.last());
            assert forall|i: int, j: int| 0 <= i < j < e.len() implies e[i] != e[j] by {
                if j == d.len() {
                    assert(e[i] == d[i]);
                }
            }
        }
    }
}

/// The error when process enumeration could not start.
pub open spec fn snapshot_failed_text() -> Seq<char> {
    "Failed to create process snapshot"@
}

/// The error when no terminal runs.
pub open spec fn no_terminal_text() -> Seq<char> {
    "No running terminal64.exe found"@
}

/// The installation paths of the running terminals, from the paths of the
/// terminal processes found (`None` when the process list could not be
/// taken): each path once, in the order first found; none is an error.
pub fn find_terminal64_paths(found: Option<Vec<String>>) -> (res: Result<Vec<String>>)
    ensures
        found is None ==> (res matches Err(Mt5Error::ConnectionFailed(m)) && m@
            == snapshot_failed_text()),
        found matches Some(f) ==> (first_occurrences(texts(f@)).len() == 0 ==> (res matches Err(
            Mt5Error::ConnectionFailed(m),
        ) && m@ == no_terminal_text())),
        found matches Some(f) ==> (first_occurrences(texts(f@)).len() > 0 ==> (res matches Ok(p)
            && texts(p@) == first_occurrences(texts(f@)))),
{
    let found = match found {
        Some(f) => f,
        None => {
            return Err(
                Mt5Error::ConnectionFailed(String::from_str("Failed to create process snapshot")),
            );
        },
    };
    let ghost all = texts(found@);
    let mut paths: Vec<String> = Vec::new();
    let mut i: usize = 0;
    while i < found.len()
        invariant
            i <= found@.len(),
            all == texts(found@),
            texts(paths@) == first_occurrences(all.take(i as int)),
        decreases found@.len() - i,
    {
        let ghost prev = texts(paths@);
        assert(all.take(i + 1).drop_last() =~= all.take(i as int));
        let mut seen = false;
        let mut j: usize = 0;
        while j < paths.len()
            invariant
                j <= paths@.len(),
                i < found@.len(),
                seen == (exists|k: int| 0 <= k < j && paths@[k]@ == found@[i as int]@),
            decreases paths@.len() - j,
        {
            if paths[j] == found[i] {
                seen = true;
            }
            j = j + 1;
        }
        assert(seen == texts(paths@).contains(all[i as int])) by {
            if seen {
                let k = choose|k: int| 0 <= k < j && paths@[k]@ == found@[i as int]@;
                assert(texts(paths@)[k] == all[i as int]);
            }
            if texts(paths@).contains(all[i as int]) {
                let k = choose|k: int| 0 <= k < texts(paths@).len() && texts(paths@)[k] == all[i as int];
                assert(paths@[k]@ == found@[i as int]@);
            }
        }
        if !seen {
            paths.push(found[i].clone());
            assert(texts(paths@) =~= prev.push(all[i as int]));
        }
        i = i + 1;
    }
    assert(all.take(i as int) =~= all);
    if paths.len() == 0 {
        return Err(
            Mt5Error::ConnectionFailed(String::from_str("No running terminal64.exe found")),
        );
    }
    Ok(paths)
}

} // verus!
