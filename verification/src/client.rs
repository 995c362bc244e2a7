//! The computing half of every client call: the parameters each command is
//! sent with, and the decoding of each response into records.
//!
//! Each call of the terminal's API is a command code, its parameters, and a
//! response whose layout `crate::layout` states; the caller sends the bytes
//! built here and hands the response back to the decoder here.
use vstd::prelude::*;

use crate::codec::{
    encode_string, law_fixed_string_reads_back, slot_image, slot_text, string_bytes, units_at,
    Reader, Writer,
};
use crate::error::{Mt5Error, Result, error_text, spec_error_code};
use crate::layout::{
    account_info_at, book_at, check_result_at, deal_at, order_at, position_at, rate_at,
    records_in, symbol_info_at, terminal_info_of, tick_at, trade_result_at, ACCOUNT_INFO_LEN,
    BOOK_LEN, CHECK_RESULT_LEN, DEAL_LEN, ORDER_LEN, POSITION_LEN, RATE_LEN, SYMBOL_INFO_LEN,
    TICK_LEN, TRADE_RESULT_LEN,
};
use crate::codec::read_string_at_offset;
use crate::text::{decimal, decimal_string, has_no_nul, utf16_encode};
use crate::types::{
    AccountInfo, BookInfo, Rate, SymbolInfo, TerminalInfo, Tick, TradeCheckResult, TradeDeal,
    TradeOrder, TradePosition, TradeRequest, TradeResult, VersionInfo,
};
use crate::wire::{
    get_u16_le, get_u32_le, get_u64_le, le_u32, le_u64, lemma_u32_roundtrip, lemma_u64_roundtrip,
    push_bytes, push_u32_le, push_u64_le, u32_le_bytes, u64_le_bytes,
};

verus! {

/// Handshake; also login (the parameters tell them apart).
pub const CMD_INITIALIZE: u32 = 4;
/// Login.
pub const CMD_LOGIN: u32 = 4;
/// Account record.
pub const CMD_ACCOUNT_INFO: u32 = 190;
/// Terminal record.
pub const CMD_TERMINAL_INFO: u32 = 180;
/// Number of symbols.
pub const CMD_SYMBOLS_TOTAL: u32 = 173;
/// All symbol records.
pub const CMD_SYMBOLS_GET: u32 = 174;
/// One symbol record.
pub const CMD_SYMBOL_INFO: u32 = 170;
/// Select or deselect a symbol.
pub const CMD_SYMBOL_SELECT: u32 = 171;
/// Latest tick of a symbol.
pub const CMD_SYMBOL_INFO_TICK: u32 = 172;
/// Number of open positions.
pub const CMD_POSITIONS_TOTAL: u32 = 120;
/// Open positions.
pub const CMD_POSITIONS_GET: u32 = 121;
/// Number of pending orders.
pub const CMD_ORDERS_TOTAL: u32 = 130;
/// Pending orders.
pub const CMD_ORDERS_GET: u32 = 131;
/// Bars from a time on.
pub const CMD_COPY_RATES_FROM: u32 = 106;
/// Bars in a time range.
pub const CMD_COPY_RATES_RANGE: u32 = 107;
/// Bars from a position on.
pub const CMD_COPY_RATES_FROM_POS: u32 = 108;
/// Ticks from a time on.
pub const CMD_COPY_TICKS_FROM: u32 = 104;
/// Ticks in a time range.
pub const CMD_COPY_TICKS_RANGE: u32 = 105;
/// Number of deals in a time range.
pub const CMD_HISTORY_DEALS_TOTAL: u32 = 150;
/// Deals in a time range.
pub const CMD_HISTORY_DEALS_GET: u32 = 151;
/// Number of history orders in a time range.
pub const CMD_HISTORY_ORDERS_TOTAL: u32 = 140;
/// History orders in a time range.
pub const CMD_HISTORY_ORDERS_GET: u32 = 141;
/// Subscribe to market depth.
pub const CMD_MARKET_BOOK_ADD: u32 = 191;
/// Unsubscribe from market depth.
pub const CMD_MARKET_BOOK_RELEASE: u32 = 192;
/// Market depth.
pub const CMD_MARKET_BOOK_GET: u32 = 193;
/// Check a trade request.
pub const CMD_ORDER_CHECK: u32 = 160;
/// Send a trade request.
pub const CMD_ORDER_SEND: u32 = 161;

/// Whether `e` is an invalid-response error with the text `msg`.
pub open spec fn invalid_with(e: Mt5Error, msg: Seq<char>) -> bool {
    e matches Mt5Error::InvalidResponse(m) && m@ == msg
}

/// The eight bytes of a 64-bit signed value (its two's-complement bits).
pub open spec fn i64_bytes(v: i64) -> Seq<u8> {
    u64_le_bytes((v as u64) as int)
}

/// The four bytes of a 32-bit signed value (its two's-complement bits).
pub open spec fn i32_bytes(v: i32) -> Seq<u8> {
    u32_le_bytes((v as u32) as int)
}

/// A record that starts at `4 + i * rec` and fits in `len` bytes leaves `i`
/// within the number of whole records.
proof fn lemma_records_fit(len: int, i: int, rec: int)
    requires
        rec > 0,
        i >= 0,
        4 + i * rec <= len,
    ensures
        i <= (len - 4) / rec,
{
    vstd::arithmetic::div_mod::lemma_fundamental_div_mod_converse(i * rec, rec, i, 0);
    vstd::arithmetic::div_mod::lemma_div_is_ordered(i * rec, len - 4, rec);
}

/// When fewer than `rec` bytes follow record `i`, exactly `i` whole records fit.
proof fn lemma_records_end(len: int, i: int, rec: int)
    requires
        rec > 0,
        i >= 0,
        4 + i * rec <= len,
        len - (4 + i * rec) < rec,
    ensures
        (len - 4) / rec == i,
{
    vstd::arithmetic::div_mod::lemma_fundamental_div_mod_converse(
        len - 4,
        rec,
        i,
        len - 4 - i * rec,
    );
}

/// The parameters of the handshake: protocol version 3, then the client's
/// name "Go" as a protocol string.
pub fn handshake_params() -> (v: Vec<u8>)
    ensures
        v@ == u32_le_bytes(3) + string_bytes("Go"@),
{
    let mut data: Vec<u8> = Vec::new();
    push_u32_le(&mut data, 3);
    let name = encode_string("Go");
    push_bytes(&mut data, name.as_slice());
    data
}

/// The terminal's build after the handshake: the first four bytes of the
/// response when it has them, else `build` unchanged.
pub fn handshake_build(resp: &[u8], build: i32) -> (b: i32)
    ensures
        resp@.len() >= 4 ==> b == le_u32(resp@, 0) as i32,
        resp@.len() < 4 ==> b == build,
{
    if resp.len() >= 4 {
        get_u32_le(resp, 0) as i32
    } else {
        build
    }
}

/// The parameters of a login: the account number (64-bit little-endian),
/// then the password and the server as protocol strings.
pub fn login_params(login: i64, password: &str, server: &str) -> (v: Vec<u8>)
    ensures
        v@ == i64_bytes(login) + string_bytes(password@) + string_bytes(server@),
{
    let mut data: Vec<u8> = Vec::new();
    push_u64_le(&mut data, login as u64);
    let p = encode_string(password);
    push_bytes(&mut data, p.as_slice());
    let s = encode_string(server);
    push_bytes(&mut data, s.as_slice());
    data
}

/// Decodes a login response: its first four bytes are a status, zero on
/// success; any other status is a refused command 4 carrying that status.
pub fn decode_login(resp: &[u8]) -> (res: Result<()>)
    ensures
        resp@.len() < 4 ==> (res matches Err(e) && invalid_with(e, "Response too short"@)),
        resp@.len() >= 4 && le_u32(resp@, 0) == 0 ==> res is Ok,
        resp@.len() >= 4 && le_u32(resp@, 0) != 0 ==> (res matches Err(
            Mt5Error::CommandFailed { cmd, error_code, error },
        ) && cmd == 4 && error_code == le_u32(resp@, 0) as i32 && error@
            == "Login failed with status: "@ + decimal(le_u32(resp@, 0))),
{
    if resp.len() < 4 {
        return Err(Mt5Error::InvalidResponse(String::from_str("Response too short")));
    }
    let status = get_u32_le(resp, 0);
    if status != 0 {
        let digits = decimal_string(status as i128);
        return Err(
            Mt5Error::CommandFailed {
                cmd: 4,
                error_code: status as i32,
                error: String::from_str("Login failed with status: ").concat(digits.as_str()),
            },
        );
    }
    Ok(())
}

/// Decodes an account response (command 190): 147 bytes of numbers, then
/// four string slots (name 256 bytes, server 128, currency 64, company 256).
pub fn decode_account_info(resp: &[u8]) -> (res: Result<AccountInfo>)
    ensures
        resp@.len() < 8 ==> (res matches Err(e) && invalid_with(e, "Response too short"@)),
        8 <= resp@.len() <= 147 ==> (res matches Err(e) && invalid_with(
            e,
            "Response too short for strings: "@ + decimal(resp@.len() as int) + " < "@ + decimal(
                147,
            ),
        )),
        147 < resp@.len() < ACCOUNT_INFO_LEN ==> (res matches Err(e) && invalid_with(
            e,
            "Failed to read strings"@,
        )),
        resp@.len() >= ACCOUNT_INFO_LEN ==> (res matches Ok(a) && account_info_at(a, resp@, 0)),
{
    if resp.len() < 8 {
        return Err(Mt5Error::InvalidResponse(String::from_str("Response too short")));
    }
    let strings_offset: usize = 147;
    if strings_offset >= resp.len() {
        let have = decimal_string(resp.len() as i128);
        let want = decimal_string(strings_offset as i128);
        return Err(
            Mt5Error::InvalidResponse(
                String::from_str("Response too short for strings: ").concat(have.as_str()).concat(
                    " < ",
                ).concat(want.as_str()),
            ),
        );
    }
    if resp.len() < ACCOUNT_INFO_LEN {
        return Err(Mt5Error::InvalidResponse(String::from_str("Failed to read strings")));
    }
    let mut reader = Reader::new(resp);
    Ok(read_account_info(&mut reader))
}

/// Decodes a terminal response (command 180): flags and numbers at fixed
/// offsets in its first 40 bytes, then six texts at fixed offsets.
pub fn decode_terminal_info(resp: &[u8]) -> (res: Result<TerminalInfo>)
    ensures
        resp@.len() < 40 ==> (res matches Err(e) && invalid_with(e, "Response too short"@)),
        resp@.len() >= 40 ==> (res matches Ok(t) && terminal_info_of(t, resp@)),
{
    if resp.len() < 40 {
        return Err(Mt5Error::InvalidResponse(String::from_str("Response too short")));
    }
    let community_account = resp[2] != 0;
    let community_connection = resp[3] != 0;
    let connected = resp[6] != 0;
    let dlls_allowed = resp[7] != 0;
    let trade_allowed = resp[8] != 0;
    let trade_api_disabled = resp[9] != 0;
    let email_enabled = resp[10] != 0;
    let ftp_enabled = resp[11] != 0;
    let notifications_enabled = resp[4] != 0;
    let mqid = resp[5] != 0;
    let build = get_u16_le(resp, 0) as i64;
    let max_bars = get_u32_le(resp, 12) as i64;
    let code_page = get_u16_le(resp, 17) as i64;
    let ping_last = get_u16_le(resp, 21) as i64;
    let community_balance = get_u64_le(resp, 24);
    let retransmission = get_u64_le(resp, 32);
    let company = read_string_at_offset(resp, 41);
    let name = read_string_at_offset(resp, 561);
    let language = read_string_at_offset(resp, 1081);
    let path = read_string_at_offset(resp, 1601);
    let data_path = read_string_at_offset(resp, 2121);
    let common_data_path = read_string_at_offset(resp, 2641);
    Ok(
        TerminalInfo {
            community_account,
            community_connection,
            connected,
            dlls_allowed,
            trade_allowed,
            trade_api_disabled,
            email_enabled,
            ftp_enabled,
            notifications_enabled,
            mqid,
            build,
            max_bars,
            code_page,
            ping_last,
            community_balance,
            retransmission,
            company,
            name,
            language,
            path,
            data_path,
            common_data_path,
        },
    )
}

/// The version record derived from a terminal record: version and build are
/// both the terminal's build, and the date text is "company (name)".
pub fn version_from_terminal_info(info: &TerminalInfo) -> (v: VersionInfo)
    ensures
        v.version == info.build as i32,
        v.build == info.build as i32,
        v.build_date@ == info.company@ + " ("@ + info.name@ + ")"@,
{
    VersionInfo {
        version: info.build as i32,
        build: info.build as i32,
        build_date: info.company.clone().concat(" (").concat(info.name.as_str()).concat(")"),
    }
}

/// Decodes a count response (commands 173, 120, 130, 150, 140): the count is
/// the first four bytes.
pub fn decode_total(resp: &[u8]) -> (res: Result<i64>)
    ensures
        resp@.len() < 4 ==> (res matches Err(e) && invalid_with(e, "Response too short"@)),
        resp@.len() >= 4 ==> res == Ok::<i64, Mt5Error>(le_u32(resp@, 0) as i64),
{
    if resp.len() < 4 {
        return Err(Mt5Error::InvalidResponse(String::from_str("Response too short")));
    }
    Ok(get_u32_le(resp, 0) as i64)
}

/// Reads one symbol record from `reader`; when too few bytes are left it is
/// an invalid response.
pub fn decode_symbol_info(reader: &mut Reader) -> (res: Result<SymbolInfo>)
    ensures
        final(reader).bytes() == old(reader).bytes(),
        old(reader).can_read(SYMBOL_INFO_LEN as int) ==> (res matches Ok(s) && symbol_info_at(
            s,
            old(reader).bytes(),
            old(reader).position(),
        ) && final(reader).advanced(old(reader), SYMBOL_INFO_LEN as int)),
        !old(reader).can_read(SYMBOL_INFO_LEN as int) ==> (res matches Err(e) && invalid_with(
            e,
            "Failed to read symbol info"@,
        )) && *final(reader) == *old(reader),
{
    if reader.has_error() || reader.remaining() < SYMBOL_INFO_LEN {
        return Err(Mt5Error::InvalidResponse(String::from_str("Failed to read symbol info")));
    }
    Ok(read_symbol_info(reader))
}

/// Decodes the symbols of a command 174 response: the number of records,
/// then the records back to back; all of them must be there.
pub fn decode_symbols(resp: &[u8]) -> (res: Result<Vec<SymbolInfo>>)
    ensures
        resp@.len() < 4 ==> (res matches Err(e) && invalid_with(e, "Response too short"@)),
        resp@.len() >= 4 && 4 + le_u32(resp@, 0) * SYMBOL_INFO_LEN <= resp@.len() ==> (res matches Ok(
            v,
        ) && v@.len() == le_u32(resp@, 0) && forall|j: int|
            0 <= j < v@.len() ==> #[trigger] symbol_info_at(v@[j], resp@, 4 + j * SYMBOL_INFO_LEN)),
        resp@.len() >= 4 && 4 + le_u32(resp@, 0) * SYMBOL_INFO_LEN > resp@.len() ==> (res matches Err(
            e,
        ) && invalid_with(e, "Failed to read symbol info"@)),
{
    if resp.len() < 4 {
        return Err(Mt5Error::InvalidResponse(String::from_str("Response too short")));
    }
    let mut reader = Reader::new(resp);
    let count = reader.read_u32() as usize;
    let mut symbols: Vec<SymbolInfo> = Vec::new();
    let mut i: usize = 0;
    while i < count
        invariant
            reader.bytes() == resp@,
            !reader.failed(),
            reader.position() == 4 + i * SYMBOL_INFO_LEN,
            i <= count,
            count == le_u32(resp@, 0),
            4 + i * SYMBOL_INFO_LEN <= resp@.len(),
            symbols@.len() == i,
            forall|j: int|
                0 <= j < i ==> #[trigger] symbol_info_at(symbols@[j], resp@, 4 + j * SYMBOL_INFO_LEN),
        decreases count - i,
    {
        let sym = decode_symbol_info(&mut reader);
        match sym {
            Ok(s) => {
                symbols.push(s);
            },
            Err(e) => {
                assert(4 + count * SYMBOL_INFO_LEN > resp@.len()) by (nonlinear_arith)
                    requires
                        4 + i * SYMBOL_INFO_LEN + SYMBOL_INFO_LEN > resp@.len(),
                        i < count,
                ;
                return Err(e);
            },
        }
        i = i + 1;
    }
    Ok(symbols)
}

/// Decodes a command 170 response: empty when the symbol does not exist,
/// else one symbol record.
pub fn decode_optional_symbol_info(resp: &[u8]) -> (res: Result<Option<SymbolInfo>>)
    ensures
        resp@.len() == 0 ==> (res matches Ok(None)),
        0 < resp@.len() < SYMBOL_INFO_LEN ==> (res matches Err(e) && invalid_with(
            e,
            "Failed to read symbol info"@,
        )),
        resp@.len() >= SYMBOL_INFO_LEN ==> (res matches Ok(Some(s)) && symbol_info_at(s, resp@, 0)),
{
    if resp.len() == 0 {
        return Ok(None);
    }
    let mut reader = Reader::new(resp);
    match decode_symbol_info(&mut reader) {
        Ok(s) => Ok(Some(s)),
        Err(e) => Err(e),
    }
}

/// Decodes a command 172 response: empty when there is no quote, else one
/// tick record.
pub fn decode_optional_tick(resp: &[u8]) -> (res: Result<Option<Tick>>)
    ensures
        resp@.len() == 0 ==> (res matches Ok(None)),
        0 < resp@.len() < TICK_LEN ==> (res matches Err(e) && invalid_with(
            e,
            "Failed to read tick info"@,
        )),
        resp@.len() >= TICK_LEN ==> (res matches Ok(Some(t)) && tick_at(t, resp@, 0)),
{
    if resp.len() == 0 {
        return Ok(None);
    }
    if resp.len() < TICK_LEN {
        return Err(Mt5Error::InvalidResponse(String::from_str("Failed to read tick info")));
    }
    let mut reader = Reader::new(resp);
    Ok(Some(read_tick(&mut reader)))
}

/// The parameters of a symbol selection: the symbol as a protocol string,
/// then one byte, 1 to select and 0 to deselect.
pub fn symbol_select_params(symbol: &str, enable: bool) -> (v: Vec<u8>)
    ensures
        v@ == string_bytes(symbol@) + seq![if enable { 1u8 } else { 0u8 }],
{
    let mut data = encode_string(symbol);
    data.push(if enable { 1u8 } else { 0u8 });
    data
}

/// Decodes a symbol-selection response: empty means success; otherwise the
/// first four bytes are a status, non-zero for success.
pub fn decode_symbol_select(resp: &[u8]) -> (res: Result<bool>)
    ensures
        resp@.len() == 0 ==> res == Ok::<bool, Mt5Error>(true),
        0 < resp@.len() < 4 ==> (res matches Err(e) && invalid_with(e, "Response too short"@)),
        resp@.len() >= 4 ==> res == Ok::<bool, Mt5Error>((le_u32(resp@, 0) as i32) != 0),
{
    if resp.len() == 0 {
        return Ok(true);
    }
    if resp.len() < 4 {
        return Err(Mt5Error::InvalidResponse(String::from_str("Response too short")));
    }
    let status = get_u32_le(resp, 0) as i32;
    Ok(status != 0)
}

/// Decodes a market-depth subscription or release response: empty means
/// success; otherwise the first four bytes are a status, zero for success.
pub fn decode_book_subscription(resp: &[u8]) -> (res: Result<bool>)
    ensures
        resp@.len() == 0 ==> res == Ok::<bool, Mt5Error>(true),
        0 < resp@.len() < 4 ==> (res matches Err(e) && invalid_with(e, "Response too short"@)),
        resp@.len() >= 4 ==> res == Ok::<bool, Mt5Error>(le_u32(resp@, 0) == 0),
{
    if resp.len() == 0 {
        return Ok(true);
    }
    if resp.len() < 4 {
        return Err(Mt5Error::InvalidResponse(String::from_str("Response too short")));
    }
    let status = get_u32_le(resp, 0);
    Ok(status == 0)
}

/// The parameters of a query that may be narrowed to one symbol: the symbol
/// as a protocol string, or nothing.
pub fn symbol_filter_params(symbol: Option<&str>) -> (v: Vec<u8>)
    ensures
        symbol matches Some(s) ==> v@ == string_bytes(s@),
        symbol is None ==> v@ == Seq::<u8>::empty(),
{
    match symbol {
        Some(s) => encode_string(s),
        None => Vec::new(),
    }
}

/// The parameters of bars from a position on: symbol, timeframe, start
/// position and count, each number as 32 bits (the position truncated).
pub fn rates_from_pos_params(symbol: &str, timeframe: i32, start_pos: i64, count: i32) -> (v: Vec<
    u8,
>)
    ensures
        v@ == string_bytes(symbol@) + i32_bytes(timeframe) + u32_le_bytes(
            (start_pos as u32) as int,
        ) + i32_bytes(count),
{
    let mut data = encode_string(symbol);
    push_u32_le(&mut data, timeframe as u32);
    push_u32_le(&mut data, start_pos as u32);
    push_u32_le(&mut data, count as u32);
    data
}

/// The parameters of bars from a time on: symbol, timeframe (32 bits), start
/// time in seconds (64 bits) and count (32 bits).
pub fn rates_from_params(symbol: &str, timeframe: i32, date_from: i64, count: i32) -> (v: Vec<u8>)
    ensures
        v@ == string_bytes(symbol@) + i32_bytes(timeframe) + i64_bytes(date_from) + i32_bytes(
            count,
        ),
{
    let mut data = encode_string(symbol);
    push_u32_le(&mut data, timeframe as u32);
    push_u64_le(&mut data, date_from as u64);
    push_u32_le(&mut data, count as u32);
    data
}

/// The parameters of bars in a time range: symbol, timeframe (32 bits), and
/// the range's two ends in seconds (64 bits each).
pub fn rates_range_params(symbol: &str, timeframe: i32, date_from: i64, date_to: i64) -> (v: Vec<
    u8,
>)
    ensures
        v@ == string_bytes(symbol@) + i32_bytes(timeframe) + i64_bytes(date_from) + i64_bytes(
            date_to,
        ),
{
    let mut data = encode_string(symbol);
    push_u32_le(&mut data, timeframe as u32);
    push_u64_le(&mut data, date_from as u64);
    push_u64_le(&mut data, date_to as u64);
    data
}

/// The parameters of ticks from a time on: symbol, the start time converted
/// from seconds to the milliseconds the terminal expects (64 bits), count and
/// flags (32 bits each).
pub fn ticks_from_params(symbol: &str, from: i64, count: i32, flags: i32) -> (v: Vec<u8>)
    requires
        i64::MIN <= from * 1000 <= i64::MAX,
    ensures
        v@ == string_bytes(symbol@) + i64_bytes((from * 1000) as i64) + i32_bytes(count)
            + i32_bytes(flags),
{
    let mut data = encode_string(symbol);
    let from_ms = from * 1000;
    push_u64_le(&mut data, from_ms as u64);
    push_u32_le(&mut data, count as u32);
    push_u32_le(&mut data, flags as u32);
    data
}

/// The parameters of ticks in a time range: symbol, both ends converted from
/// seconds to milliseconds (64 bits each), and flags (32 bits).
pub fn ticks_range_params(symbol: &str, from: i64, to: i64, flags: i32) -> (v: Vec<u8>)
    requires
        i64::MIN <= from * 1000 <= i64::MAX,
        i64::MIN <= to * 1000 <= i64::MAX,
    ensures
        v@ == string_bytes(symbol@) + i64_bytes((from * 1000) as i64) + i64_bytes(
            (to * 1000) as i64,
        ) + i32_bytes(flags),
{
    let mut data = encode_string(symbol);
    let from_ms = from * 1000;
    let to_ms = to * 1000;
    push_u64_le(&mut data, from_ms as u64);
    push_u64_le(&mut data, to_ms as u64);
    push_u32_le(&mut data, flags as u32);
    data
}

/// The parameters of a history query: the range's two ends in seconds
/// (64 bits each).
pub fn history_range_params(from: i64, to: i64) -> (v: Vec<u8>)
    ensures
        v@ == i64_bytes(from) + i64_bytes(to),
{
    let mut data: Vec<u8> = Vec::new();
    push_u64_le(&mut data, from as u64);
    push_u64_le(&mut data, to as u64);
    data
}

/// The first 84 bytes of a trade request: action, magic, order, and the
/// symbol in a 64-byte slot.
#[verifier::opaque]
pub open spec fn request_head_bytes(r: TradeRequest) -> Seq<u8> {
    i32_bytes(r.action) + i64_bytes(r.magic) + i64_bytes(r.order) + slot_image(
        utf16_encode(r.symbol@),
        64,
    )
}

/// Bytes 84 to 124 of a trade request: volume, price, stop-limit, stop loss
/// and take profit.
#[verifier::opaque]
pub open spec fn request_price_bytes(r: TradeRequest) -> Seq<u8> {
    u64_le_bytes(r.volume as int) + u64_le_bytes(r.price as int) + u64_le_bytes(
        r.stoplimit as int,
    ) + u64_le_bytes(r.sl as int) + u64_le_bytes(r.tp as int)
}

/// Bytes 124 to 152 of a trade request: deviation, type, filling, time type
/// and expiration.
#[verifier::opaque]
pub open spec fn request_kind_bytes(r: TradeRequest) -> Seq<u8> {
    i64_bytes(r.deviation) + i32_bytes(r.type_) + i32_bytes(r.type_filling) + i32_bytes(
        r.type_time,
    ) + i64_bytes(r.expiration)
}

/// Bytes 152 to 232 of a trade request: the comment in a 64-byte slot, the
/// position and the opposite position.
#[verifier::opaque]
pub open spec fn request_tail_bytes(r: TradeRequest) -> Seq<u8> {
    slot_image(utf16_encode(r.comment@), 64) + i64_bytes(r.position) + i64_bytes(r.position_by)
}

/// The 232 bytes a trade request is sent as.
pub open spec fn trade_request_bytes(r: TradeRequest) -> Seq<u8> {
    request_head_bytes(r) + request_price_bytes(r) + request_kind_bytes(r) + request_tail_bytes(r)
}

/// Encodes a trade request (commands 160 and 161): action, magic, order,
/// symbol in a 64-byte slot, volume, price, stop-limit, stop loss, take
/// profit, deviation, type, filling, time type, expiration, comment in a
/// 64-byte slot, position and opposite position.
#[verifier::rlimit(40)]
#[verifier::spinoff_prover]
pub fn encode_trade_request(req: &TradeRequest) -> (v: Vec<u8>)
    ensures
        v@ == trade_request_bytes(*req),
{
    let mut w = Writer::new();
    w.write_u32(req.action as u32);
    w.write_i64(req.magic);
    w.write_i64(req.order);
    w.write_fixed_string(req.symbol.as_str(), 64);
    assert(w.bytes() =~= request_head_bytes(*req)) by {
        reveal(request_head_bytes);
    }
    let ghost head = w.bytes();
    w.write_u64(req.volume);
    w.write_u64(req.price);
    w.write_u64(req.stoplimit);
    w.write_u64(req.sl);
    w.write_u64(req.tp);
    assert(w.bytes() =~= head + request_price_bytes(*req)) by {
        reveal(request_price_bytes);
    }
    let ghost prices = w.bytes();
    w.write_u64(req.deviation as u64);
    w.write_u32(req.type_ as u32);
    w.write_u32(req.type_filling as u32);
    w.write_u32(req.type_time as u32);
    w.write_i64(req.expiration);
    assert(w.bytes() =~= prices + request_kind_bytes(*req)) by {
        reveal(request_kind_bytes);
    }
    let ghost kinds = w.bytes();
    w.write_fixed_string(req.comment.as_str(), 64);
    w.write_i64(req.position);
    w.write_i64(req.position_by);
    assert(w.bytes() =~= kinds + request_tail_bytes(*req)) by {
        reveal(request_tail_bytes);
    }
    w.into_bytes()
}

/// A 32-bit value inside a prefix reads the same after more bytes follow.
proof fn lemma_u32_prefix(a: Seq<u8>, z: Seq<u8>, i: int)
    requires
        0 <= i,
        i + 4 <= a.len(),
    ensures
        le_u32(a + z, i) == le_u32(a, i),
{
    assert((a + z)[i] == a[i] && (a + z)[i + 1] == a[i + 1] && (a + z)[i + 2] == a[i + 2] && (a
        + z)[i + 3] == a[i + 3]);
}

/// A 32-bit value after a prefix reads the same without the prefix.
proof fn lemma_u32_suffix(x: Seq<u8>, y: Seq<u8>, i: int)
    requires
        0 <= i,
        i + 4 <= y.len(),
    ensures
        le_u32(x + y, x.len() + i) == le_u32(y, i),
{
    let n = x.len() as int;
    assert((x + y)[n + i] == y[i] && (x + y)[n + i + 1] == y[i + 1] && (x + y)[n + i + 2] == y[i
        + 2] && (x + y)[n + i + 3] == y[i + 3]);
}

/// A 64-bit value inside a prefix reads the same after more bytes follow.
proof fn lemma_u64_prefix(a: Seq<u8>, z: Seq<u8>, i: int)
    requires
        0 <= i,
        i + 8 <= a.len(),
    ensures
        le_u64(a + z, i) == le_u64(a, i),
{
    lemma_u32_prefix(a, z, i);
    lemma_u32_prefix(a, z, i + 4);
}

/// A 64-bit value after a prefix reads the same without the prefix.
proof fn lemma_u64_suffix(x: Seq<u8>, y: Seq<u8>, i: int)
    requires
        0 <= i,
        i + 8 <= y.len(),
    ensures
        le_u64(x + y, x.len() + i) == le_u64(y, i),
{
    lemma_u32_suffix(x, y, i);
    lemma_u32_suffix(x, y, i + 4);
}

/// A slot inside a prefix reads the same after more bytes follow.
proof fn lemma_slot_prefix(a: Seq<u8>, z: Seq<u8>, i: int, width: int)
    requires
        0 <= i,
        0 <= width,
        i + width <= a.len(),
    ensures
        slot_text(a + z, i, width) == slot_text(a, i, width),
{
    assert(units_at(a + z, i, width / 2) =~= units_at(a, i, width / 2));
}

/// A slot after a prefix reads the same without the prefix.
proof fn lemma_slot_suffix(x: Seq<u8>, y: Seq<u8>, i: int, width: int)
    requires
        0 <= i,
        0 <= width,
        i + width <= y.len(),
    ensures
        slot_text(x + y, x.len() + i, width) == slot_text(y, i, width),
{
    assert(units_at(x + y, x.len() + i, width / 2) =~= units_at(y, i, width / 2));
}

/// A string that fits its slot reads back from a slot written first.
proof fn lemma_slot_reads_back(s: Seq<char>)
    requires
        has_no_nul(s),
        utf16_encode(s).len() < 32,
    ensures
        slot_text(slot_image(utf16_encode(s), 64), 0, 64) == s,
{
    law_fixed_string_reads_back(Seq::empty(), s, 64);
    assert(Seq::<u8>::empty() + slot_image(utf16_encode(s), 64) =~= slot_image(
        utf16_encode(s),
        64,
    ));
}

/// The fields of the first 84 bytes of a trade request.
proof fn lemma_head_fields(r: TradeRequest)
    ensures
        request_head_bytes(r).len() == 84,
        le_u32(request_head_bytes(r), 0) as i32 == r.action,
        le_u64(request_head_bytes(r), 4) as i64 == r.magic,
        le_u64(request_head_bytes(r), 12) as i64 == r.order,
        has_no_nul(r.symbol@) && utf16_encode(r.symbol@).len() < 32 ==> slot_text(
            request_head_bytes(r),
            20,
            64,
        ) == r.symbol@,
{
    reveal(request_head_bytes);
    let a = i32_bytes(r.action);
    let m = i64_bytes(r.magic);
    let o = i64_bytes(r.order);
    let sym = slot_image(utf16_encode(r.symbol@), 64);
    let (action, magic, order) = (r.action, r.magic, r.order);
    lemma_u32_roundtrip((action as u32) as int);
    lemma_u64_roundtrip((magic as u64) as int);
    lemma_u64_roundtrip((order as u64) as int);
    lemma_u32_prefix(a + m + o, sym, 0);
    lemma_u32_prefix(a + m, o, 0);
    lemma_u32_prefix(a, m, 0);
    lemma_u64_prefix(a + m + o, sym, 4);
    lemma_u64_prefix(a + m, o, 4);
    lemma_u64_suffix(a, m, 0);
    lemma_u64_prefix(a + m + o, sym, 12);
    lemma_u64_suffix(a + m, o, 0);
    lemma_slot_suffix(a + m + o, sym, 0, 64);
    assert(((action as u32) as i32) == action) by (bit_vector);
    assert(((magic as u64) as i64) == magic) by (bit_vector);
    assert(((order as u64) as i64) == order) by (bit_vector);
    if has_no_nul(r.symbol@) && utf16_encode(r.symbol@).len() < 32 {
        lemma_slot_reads_back(r.symbol@);
    }
}

/// The fields of bytes 84 to 124 of a trade request.
proof fn lemma_price_fields(r: TradeRequest)
    ensures
        request_price_bytes(r).len() == 40,
        le_u64(request_price_bytes(r), 0) == r.volume,
        le_u64(request_price_bytes(r), 8) == r.price,
        le_u64(request_price_bytes(r), 16) == r.stoplimit,
        le_u64(request_price_bytes(r), 24) == r.sl,
        le_u64(request_price_bytes(r), 32) == r.tp,
{
    reveal(request_price_bytes);
    let v = u64_le_bytes(r.volume as int);
    let p = u64_le_bytes(r.price as int);
    let l = u64_le_bytes(r.stoplimit as int);
    let s = u64_le_bytes(r.sl as int);
    let t = u64_le_bytes(r.tp as int);
    lemma_u64_roundtrip(r.volume as int);
    lemma_u64_roundtrip(r.price as int);
    lemma_u64_roundtrip(r.stoplimit as int);
    lemma_u64_roundtrip(r.sl as int);
    lemma_u64_roundtrip(r.tp as int);
    lemma_u64_prefix(v + p + l + s, t, 0);
    lemma_u64_prefix(v + p + l, s, 0);
    lemma_u64_prefix(v + p, l, 0);
    lemma_u64_prefix(v, p, 0);
    lemma_u64_prefix(v + p + l + s, t, 8);
    lemma_u64_prefix(v + p + l, s, 8);
    lemma_u64_prefix(v + p, l, 8);
    lemma_u64_suffix(v, p, 0);
    lemma_u64_prefix(v + p + l + s, t, 16);
    lemma_u64_prefix(v + p + l, s, 16);
    lemma_u64_suffix(v + p, l, 0);
    lemma_u64_prefix(v + p + l + s, t, 24);
    lemma_u64_suffix(v + p + l, s, 0);
    lemma_u64_suffix(v + p + l + s, t, 0);
}

/// The fields of bytes 124 to 152 of a trade request.
proof fn lemma_kind_fields(r: TradeRequest)
    ensures
        request_kind_bytes(r).len() == 28,
        le_u64(request_kind_bytes(r), 0) as i64 == r.deviation,
        le_u32(request_kind_bytes(r), 8) as i32 == r.type_,
        le_u32(request_kind_bytes(r), 12) as i32 == r.type_filling,
        le_u32(request_kind_bytes(r), 16) as i32 == r.type_time,
        le_u64(request_kind_bytes(r), 20) as i64 == r.expiration,
{
    reveal(request_kind_bytes);
    let (d, t, f, tt, e) = (r.deviation, r.type_, r.type_filling, r.type_time, r.expiration);
    let db = i64_bytes(d);
    let tb = i32_bytes(t);
    let fb = i32_bytes(f);
    let ttb = i32_bytes(tt);
    let eb = i64_bytes(e);
    lemma_u64_roundtrip((d as u64) as int);
    lemma_u32_roundtrip((t as u32) as int);
    lemma_u32_roundtrip((f as u32) as int);
    lemma_u32_roundtrip((tt as u32) as int);
    lemma_u64_roundtrip((e as u64) as int);
    lemma_u64_prefix(db + tb + fb + ttb, eb, 0);
    lemma_u64_prefix(db + tb + fb, ttb, 0);
    lemma_u64_prefix(db + tb, fb, 0);
    lemma_u64_prefix(db, tb, 0);
    lemma_u32_prefix(db + tb + fb + ttb, eb, 8);
    lemma_u32_prefix(db + tb + fb, ttb, 8);
    lemma_u32_prefix(db + tb, fb, 8);
    lemma_u32_suffix(db, tb, 0);
    lemma_u32_prefix(db + tb + fb + ttb, eb, 12);
    lemma_u32_prefix(db + tb + fb, ttb, 12);
    lemma_u32_suffix(db + tb, fb, 0);
    lemma_u32_prefix(db + tb + fb + ttb, eb, 16);
    lemma_u32_suffix(db + tb + fb, ttb, 0);
    lemma_u64_suffix(db + tb + fb + ttb, eb, 0);
    assert(((d as u64) as i64) == d) by (bit_vector);
    assert(((t as u32) as i32) == t) by (bit_vector);
    assert(((f as u32) as i32) == f) by (bit_vector);
    assert(((tt as u32) as i32) == tt) by (bit_vector);
    assert(((e as u64) as i64) == e) by (bit_vector);
}

/// The fields of bytes 152 to 232 of a trade request.
proof fn lemma_tail_fields(r: TradeRequest)
    ensures
        request_tail_bytes(r).len() == 80,
        le_u64(request_tail_bytes(r), 64) as i64 == r.position,
        le_u64(request_tail_bytes(r), 72) as i64 == r.position_by,
        has_no_nul(r.comment@) && utf16_encode(r.comment@).len() < 32 ==> slot_text(
            request_tail_bytes(r),
            0,
            64,
        ) == r.comment@,
{
    reveal(request_tail_bytes);
    let (p, pb) = (r.position, r.position_by);
    let c = slot_image(utf16_encode(r.comment@), 64);
    let pbytes = i64_bytes(p);
    let pbb = i64_bytes(pb);
    lemma_u64_roundtrip((p as u64) as int);
    lemma_u64_roundtrip((pb as u64) as int);
    lemma_u64_prefix(c + pbytes, pbb, 64);
    lemma_u64_suffix(c, pbytes, 0);
    lemma_u64_suffix(c + pbytes, pbb, 0);
    lemma_slot_prefix(c + pbytes, pbb, 0, 64);
    lemma_slot_prefix(c, pbytes, 0, 64);
    assert(((p as u64) as i64) == p) by (bit_vector);
    assert(((pb as u64) as i64) == pb) by (bit_vector);
    if has_no_nul(r.comment@) && utf16_encode(r.comment@).len() < 32 {
        lemma_slot_reads_back(r.comment@);
    }
}

/// A trade request is sent as 232 bytes with each field at its offset: action
/// at 0, magic 4, order 12, symbol slot 20, volume 84, price 92, stop-limit
/// 100, stop loss 108, take profit 116, deviation 124, type 132, filling 136,
/// time type 140, expiration 144, comment slot 152, position 216, opposite
/// position 224; a symbol or comment of at most 31 units without NUL reads
/// back from its slot.
pub proof fn law_trade_request_layout(r: TradeRequest)
    ensures
        trade_request_bytes(r).len() == 232,
        le_u32(trade_request_bytes(r), 0) as i32 == r.action,
        le_u64(trade_request_bytes(r), 4) as i64 == r.magic,
        le_u64(trade_request_bytes(r), 12) as i64 == r.order,
        le_u64(trade_request_bytes(r), 84) == r.volume,
        le_u64(trade_request_bytes(r), 92) == r.price,
        le_u64(trade_request_bytes(r), 100) == r.stoplimit,
        le_u64(trade_request_bytes(r), 108) == r.sl,
        le_u64(trade_request_bytes(r), 116) == r.tp,
        le_u64(trade_request_bytes(r), 124) as i64 == r.deviation,
        le_u32(trade_request_bytes(r), 132) as i32 == r.type_,
        le_u32(trade_request_bytes(r), 136) as i32 == r.type_filling,
        le_u32(trade_request_bytes(r), 140) as i32 == r.type_time,
        le_u64(trade_request_bytes(r), 144) as i64 == r.expiration,
        le_u64(trade_request_bytes(r), 216) as i64 == r.position,
        le_u64(trade_request_bytes(r), 224) as i64 == r.position_by,
        has_no_nul(r.symbol@) && utf16_encode(r.symbol@).len() < 32 ==> slot_text(
            trade_request_bytes(r),
            20,
            64,
        ) == r.symbol@,
        has_no_nul(r.comment@) && utf16_encode(r.comment@).len() < 32 ==> slot_text(
            trade_request_bytes(r),
            152,
            64,
        ) == r.comment@,
{
    let h = request_head_bytes(r);
    let p = request_price_bytes(r);
    let k = request_kind_bytes(r);
    let t = request_tail_bytes(r);
    lemma_head_fields(r);
    lemma_price_fields(r);
    lemma_kind_fields(r);
    lemma_tail_fields(r);
    // head fields
    lemma_u32_prefix(h + p + k, t, 0);
    lemma_u32_prefix(h + p, k, 0);
    lemma_u32_prefix(h, p, 0);
    lemma_u64_prefix(h + p + k, t, 4);
    lemma_u64_prefix(h + p, k, 4);
    lemma_u64_prefix(h, p, 4);
    lemma_u64_prefix(h + p + k, t, 12);
    lemma_u64_prefix(h + p, k, 12);
    lemma_u64_prefix(h, p, 12);
    lemma_slot_prefix(h + p + k, t, 20, 64);
    lemma_slot_prefix(h + p, k, 20, 64);
    lemma_slot_prefix(h, p, 20, 64);
    // price fields
    lemma_u64_prefix(h + p + k, t, 84);
    lemma_u64_prefix(h + p, k, 84);
    lemma_u64_suffix(h, p, 0);
    lemma_u64_prefix(h + p + k, t, 92);
    lemma_u64_prefix(h + p, k, 92);
    lemma_u64_suffix(h, p, 8);
    lemma_u64_prefix(h + p + k, t, 100);
    lemma_u64_prefix(h + p, k, 100);
    lemma_u64_suffix(h, p, 16);
    lemma_u64_prefix(h + p + k, t, 108);
    lemma_u64_prefix(h + p, k, 108);
    lemma_u64_suffix(h, p, 24);
    lemma_u64_prefix(h + p + k, t, 116);
    lemma_u64_prefix(h + p, k, 116);
    lemma_u64_suffix(h, p, 32);
    // kind fields
    lemma_u64_prefix(h + p + k, t, 124);
    lemma_u64_suffix(h + p, k, 0);
    lemma_u32_prefix(h + p + k, t, 132);
    lemma_u32_suffix(h + p, k, 8);
    lemma_u32_prefix(h + p + k, t, 136);
    lemma_u32_suffix(h + p, k, 12);
    lemma_u32_prefix(h + p + k, t, 140);
    lemma_u32_suffix(h + p, k, 16);
    lemma_u64_prefix(h + p + k, t, 144);
    lemma_u64_suffix(h + p, k, 20);
    // tail fields
    lemma_slot_suffix(h + p + k, t, 0, 64);
    lemma_u64_suffix(h + p + k, t, 64);
    lemma_u64_suffix(h + p + k, t, 72);
}

/// Decodes a trade result (command 161's response, 260 bytes). A trade the
/// server rejects is still a result, told by its return code, not an error.
pub fn parse_trade_result_response(data: &[u8]) -> (res: Result<TradeResult>)
    ensures
        data@.len() < TRADE_RESULT_LEN ==> (res matches Err(e) && invalid_with(
            e,
            "Response too short: "@ + decimal(data@.len() as int) + " bytes, want "@ + decimal(
                260,
            ),
        )),
        data@.len() >= TRADE_RESULT_LEN ==> (res matches Ok(r) && trade_result_at(r, data@, 0)),
{
    let total_bytes: usize = 260;
    if data.len() < total_bytes {
        let have = decimal_string(data.len() as i128);
        let want = decimal_string(total_bytes as i128);
        return Err(
            Mt5Error::InvalidResponse(
                String::from_str("Response too short: ").concat(have.as_str()).concat(
                    " bytes, want ",
                ).concat(want.as_str()),
            ),
        );
    }
    let mut reader = Reader::new(data);
    Ok(read_trade_result(&mut reader))
}

/// Decodes a trade-check result (command 160's response, 252 bytes).
pub fn parse_check_result_response(data: &[u8]) -> (res: Result<TradeCheckResult>)
    ensures
        data@.len() < CHECK_RESULT_LEN ==> (res matches Err(e) && invalid_with(
            e,
            "Response too short: "@ + decimal(data@.len() as int) + " bytes, want "@ + decimal(
                252,
            ),
        )),
        data@.len() >= CHECK_RESULT_LEN ==> (res matches Ok(c) && check_result_at(c, data@, 0)),
{
    let total_bytes: usize = 252;
    if data.len() < total_bytes {
        let have = decimal_string(data.len() as i128);
        let want = decimal_string(total_bytes as i128);
        return Err(
            Mt5Error::InvalidResponse(
                String::from_str("Response too short: ").concat(have.as_str()).concat(
                    " bytes, want ",
                ).concat(want.as_str()),
            ),
        );
    }
    let mut reader = Reader::new(data);
    Ok(read_check_result(&mut reader))
}

/// What the client keeps as its last error after a call: `(0, "")` after a
/// success, else the error's code and text.
pub fn last_error_record(result: &Result<Vec<u8>>) -> (r: (i32, String))
    ensures
        *result is Ok ==> r.0 == 0 && r.1@ == Seq::<char>::empty(),
        *result matches Err(e) ==> r.0 == spec_error_code(e) && r.1@ == error_text(e),
{
    match result {
        Ok(_) => (0, String::new()),
        Err(e) => (e.error_code(), e.message()),
    }
}

/// The last error as the client reports it: the one recorded, or `(0, "")`
/// when no call was made yet.
pub fn last_error_or_none(recorded: Option<(i32, String)>) -> (r: (i32, String))
    ensures
        recorded matches Some(x) ==> r == x,
        recorded is None ==> r.0 == 0 && r.1@ == Seq::<char>::empty(),
{
    match recorded {
        Some(x) => x,
        None => (0, String::new()),
    }
}

/// Reads `n` little-endian `u64` values in a row.
fn read_u64_run(reader: &mut Reader, n: usize) -> (v: Vec<u64>)
    requires
        old(reader).can_read(8 * n),
    ensures
        final(reader).advanced(old(reader), 8 * n),
        v@.len() == n,
        forall|j: int| 0 <= j < n ==> #[trigger] v@[j] == le_u64(old(reader).bytes(), old(reader).position() + 8 * j),
{
    let ghost start = *reader;
    let mut v: Vec<u64> = Vec::new();
    let mut k: usize = 0;
    while k < n
        invariant
            k <= n,
            start.can_read(8 * n),
            reader.advanced(&start, 8 * k),
            v@.len() == k,
            forall|j: int| 0 <= j < k ==> #[trigger] v@[j] == le_u64(start.bytes(), start.position() + 8 * j),
        decreases n - k,
    {
        let x = reader.read_u64();
        v.push(x);
        k = k + 1;
    }
    v
}

/// Reads one symbol record (its numbers, then its 13 string slots).
#[verifier::rlimit(50)]
#[verifier::spinoff_prover]
fn read_symbol_info(reader: &mut Reader) -> (v: SymbolInfo)
    requires
        old(reader).can_read(SYMBOL_INFO_LEN as int),
    ensures
        final(reader).advanced(old(reader), SYMBOL_INFO_LEN as int),
        symbol_info_at(v, old(reader).bytes(), old(reader).position()),
{
        let custom = reader.read_bool1();
        let chart_mode = reader.read_u32() as i64;
        let select = reader.read_bool1();
        let visible = reader.read_bool1();
        let session_deals = reader.read_i64();
        let session_buy_orders = reader.read_i64();
        let session_sell_orders = reader.read_i64();
        let volume = reader.read_i64();
        let volume_high = reader.read_i64();
        let volume_low = reader.read_i64();
        let time = reader.read_i64();
        let digits = reader.read_u32() as i64;
        let spread = reader.read_u32() as i64;
        let spread_float = reader.read_bool1();
        let ticks_book_depth = reader.read_u32() as i64;
        let trade_calc_mode = reader.read_u32() as i64;
        let trade_mode = reader.read_u32() as i64;
        let start_time = reader.read_i64();
        let expiration_time = reader.read_i64();
        let trade_stops_level = reader.read_u32() as i64;
        let trade_freeze_level = reader.read_u32() as i64;
        let trade_exe_mode = reader.read_u32() as i64;
        let swap_mode = reader.read_u32() as i64;
        let swap_rollover3days = reader.read_u32() as i64;
        let margin_hedged_use_leg = reader.read_bool1();
        let expiration_mode = reader.read_u32() as i64;
        let filling_mode = reader.read_u32() as i64;
        let order_mode = reader.read_u32() as i64;
        let order_gtc_mode = reader.read_u32() as i64;
        let option_mode = reader.read_u32() as i64;
        let option_right = reader.read_u32() as i64;
        let prices = read_u64_run(reader, 52);
        let bid = prices[0];
        let bidhigh = prices[1];
        let bidlow = prices[2];
        let ask = prices[3];
        let askhigh = prices[4];
        let asklow = prices[5];
        let last = prices[6];
        let lasthigh = prices[7];
        let lastlow = prices[8];
        let volume_real = prices[9];
        let volumehigh_real = prices[10];
        let volumelow_real = prices[11];
        let option_strike = prices[12];
        let point = prices[13];
        let trade_tick_value = prices[14];
        let trade_tick_value_profit = prices[15];
        let trade_tick_value_loss = prices[16];
        let trade_tick_size = prices[17];
        let trade_contract_size = prices[18];
        let trade_accrued_interest = prices[19];
        let trade_face_value = prices[20];
        let trade_liquidity_rate = prices[21];
        let volume_min = prices[22];
        let volume_max = prices[23];
        let volume_step = prices[24];
        let volume_limit = prices[25];
        let swap_long = prices[26];
        let swap_short = prices[27];
        let margin_initial = prices[28];
        let margin_maintenance = prices[29];
        let session_volume = prices[30];
        let session_turnover = prices[31];
        let session_interest = prices[32];
        let session_buy_orders_volume = prices[33];
        let session_sell_orders_volume = prices[34];
        let session_open = prices[35];
        let session_close = prices[36];
        let session_aw = prices[37];
        let session_price_settlement = prices[38];
        let session_price_limit_min = prices[39];
        let session_price_limit_max = prices[40];
        let margin_hedged = prices[41];
        let price_change = prices[42];
        let price_volatility = prices[43];
        let price_theoretical = prices[44];
        let price_greeks_delta = prices[45];
        let price_greeks_theta = prices[46];
        let price_greeks_gamma = prices[47];
        let price_greeks_vega = prices[48];
        let price_greeks_rho = prices[49];
        let price_greeks_omega = prices[50];
        let price_sensitivity = prices[51];
        let basis = reader.read_fixed_string(64);
        let category = reader.read_fixed_string(128);
        let currency_base = reader.read_fixed_string(32);
        let currency_profit = reader.read_fixed_string(32);
        let currency_margin = reader.read_fixed_string(32);
        let bank = reader.read_fixed_string(512);
        let description = reader.read_fixed_string(64);
        let exchange = reader.read_fixed_string(64);
        let formula = reader.read_fixed_string(1024);
        let isin = reader.read_fixed_string(32);
        let page = reader.read_fixed_string(128);
        let path = reader.read_fixed_string(256);
        let name = reader.read_fixed_string(64);
        SymbolInfo {
            custom,
            chart_mode,
            select,
            visible,
            session_deals,
            session_buy_orders,
            session_sell_orders,
            volume,
            volume_high,
            volume_low,
            time,
            digits,
            spread,
            spread_float,
            ticks_book_depth,
            trade_calc_mode,
            trade_mode,
            start_time,
            expiration_time,
            trade_stops_level,
            trade_freeze_level,
            trade_exe_mode,
            swap_mode,
            swap_rollover3days,
            margin_hedged_use_leg,
            expiration_mode,
            filling_mode,
            order_mode,
            order_gtc_mode,
            option_mode,
            option_right,
            bid,
            bidhigh,
            bidlow,
            ask,
            askhigh,
            asklow,
            last,
            lasthigh,
            lastlow,
            volume_real,
            volumehigh_real,
            volumelow_real,
            option_strike,
            point,
            trade_tick_value,
            trade_tick_value_profit,
            trade_tick_value_loss,
            trade_tick_size,
            trade_contract_size,
            trade_accrued_interest,
            trade_face_value,
            trade_liquidity_rate,
            volume_min,
            volume_max,
            volume_step,
            volume_limit,
            swap_long,
            swap_short,
            margin_initial,
            margin_maintenance,
            session_volume,
            session_turnover,
            session_interest,
            session_buy_orders_volume,
            session_sell_orders_volume,
            session_open,
            session_close,
            session_aw,
            session_price_settlement,
            session_price_limit_min,
            session_price_limit_max,
            margin_hedged,
            price_change,
            price_volatility,
            price_theoretical,
            price_greeks_delta,
            price_greeks_theta,
            price_greeks_gamma,
            price_greeks_vega,
            price_greeks_rho,
            price_greeks_omega,
            price_sensitivity,
            basis,
            category,
            currency_base,
            currency_profit,
            currency_margin,
            bank,
            description,
            exchange,
            formula,
            isin,
            page,
            path,
            name,
        }
}

/// Reads an account record.
fn read_account_info(reader: &mut Reader) -> (v: AccountInfo)
    requires
        old(reader).can_read(ACCOUNT_INFO_LEN as int),
    ensures
        final(reader).advanced(old(reader), ACCOUNT_INFO_LEN as int),
        account_info_at(v, old(reader).bytes(), old(reader).position()),
{
        let login = reader.read_i64();
        let trade_mode = reader.read_i32() as i64;
        let leverage = reader.read_i32() as i64;
        let limit_orders = reader.read_i32() as i64;
        let margin_so_mode = reader.read_i32() as i64;
        let trade_allowed = reader.read_bool1();
        let trade_expert = reader.read_bool1();
        let margin_mode = reader.read_i32() as i64;
        let currency_digits = reader.read_i32() as i64;
        let fifo_close = reader.read_bool1();
        let balance = reader.read_u64();
        let credit = reader.read_u64();
        let profit = reader.read_u64();
        let equity = reader.read_u64();
        let margin = reader.read_u64();
        let free_margin = reader.read_u64();
        let margin_level = reader.read_u64();
        let margin_so_call = reader.read_u64();
        let margin_so_so = reader.read_u64();
        let margin_initial = reader.read_u64();
        let margin_maintenance = reader.read_u64();
        let assets = reader.read_u64();
        let liabilities = reader.read_u64();
        let commission_blocked = reader.read_u64();
        let name = reader.read_fixed_string(256);
        let server = reader.read_fixed_string(128);
        let currency = reader.read_fixed_string(64);
        let company = reader.read_fixed_string(256);
        AccountInfo {
            login,
            trade_mode,
            leverage,
            limit_orders,
            margin_so_mode,
            trade_allowed,
            trade_expert,
            margin_mode,
            currency_digits,
            fifo_close,
            balance,
            credit,
            profit,
            equity,
            margin,
            free_margin,
            margin_level,
            margin_so_call,
            margin_so_so,
            margin_initial,
            margin_maintenance,
            assets,
            liabilities,
            commission_blocked,
            name,
            server,
            currency,
            company,
        }
}

/// Reads one open-position record.
fn read_position(reader: &mut Reader) -> (v: TradePosition)
    requires
        old(reader).can_read(POSITION_LEN as int),
    ensures
        final(reader).advanced(old(reader), POSITION_LEN as int),
        position_at(v, old(reader).bytes(), old(reader).position()),
{
        let ticket = reader.read_i64();
        let time = reader.read_i64();
        let time_msc = reader.read_i64();
        let time_update = reader.read_i64();
        let time_update_msc = reader.read_i64();
        let type_ = reader.read_u32() as i32;
        let magic = reader.read_i64();
        let identifier = reader.read_i64();
        let reason = reader.read_u32() as i32;
        let volume = reader.read_u64();
        let price_open = reader.read_u64();
        let price_current = reader.read_u64();
        let price_sl = reader.read_u64();
        let price_tp = reader.read_u64();
        let swap = reader.read_u64();
        let profit = reader.read_u64();
        let symbol = reader.read_fixed_string(64);
        let comment = reader.read_fixed_string(64);
        let external_id = reader.read_fixed_string(64);
        TradePosition {
            ticket,
            time,
            time_msc,
            time_update,
            time_update_msc,
            type_,
            magic,
            identifier,
            reason,
            volume,
            price_open,
            price_current,
            price_sl,
            price_tp,
            swap,
            profit,
            symbol,
            comment,
            external_id,
        }
}

/// Reads one order record.
fn read_order(reader: &mut Reader) -> (v: TradeOrder)
    requires
        old(reader).can_read(ORDER_LEN as int),
    ensures
        final(reader).advanced(old(reader), ORDER_LEN as int),
        order_at(v, old(reader).bytes(), old(reader).position()),
{
        let ticket = reader.read_i64();
        let time_setup = reader.read_i64();
        let time_setup_msc = reader.read_i64();
        let time_done = reader.read_i64();
        let time_done_msc = reader.read_i64();
        let time_expiration = reader.read_i64();
        let type_ = reader.read_u32() as i32;
        let type_time = reader.read_u32() as i32;
        let type_filling = reader.read_u32() as i32;
        let state = reader.read_u32() as i32;
        let magic = reader.read_i64();
        let position_id = reader.read_i64();
        let position_by_id = reader.read_i64();
        let reason = reader.read_u32() as i32;
        let volume_initial = reader.read_u64();
        let volume_current = reader.read_u64();
        let price_open = reader.read_u64();
        let price_current = reader.read_u64();
        let price_sl = reader.read_u64();
        let price_tp = reader.read_u64();
        let price_stoplimit = reader.read_u64();
        let symbol = reader.read_fixed_string(64);
        let comment = reader.read_fixed_string(64);
        let external_id = reader.read_fixed_string(64);
        TradeOrder {
            ticket,
            time_setup,
            time_setup_msc,
            time_done,
            time_done_msc,
            time_expiration,
            type_,
            type_time,
            type_filling,
            state,
            magic,
            position_id,
            position_by_id,
            reason,
            volume_initial,
            volume_current,
            price_open,
            price_current,
            price_sl,
            price_tp,
            price_stoplimit,
            symbol,
            comment,
            external_id,
        }
}

/// Reads one deal record.
fn read_deal(reader: &mut Reader) -> (v: TradeDeal)
    requires
        old(reader).can_read(DEAL_LEN as int),
    ensures
        final(reader).advanced(old(reader), DEAL_LEN as int),
        deal_at(v, old(reader).bytes(), old(reader).position()),
{
        let ticket = reader.read_i64();
        let order = reader.read_i64();
        let time = reader.read_i64();
        let time_msc = reader.read_i64();
        let type_ = reader.read_u32() as i32;
        let entry = reader.read_u32() as i32;
        let magic = reader.read_i64();
        let position_id = reader.read_i64();
        let reason = reader.read_u32() as i32;
        let volume = reader.read_u64();
        let price = reader.read_u64();
        let commission = reader.read_u64();
        let swap = reader.read_u64();
        let profit = reader.read_u64();
        let fee = reader.read_u64();
        let symbol = reader.read_fixed_string(64);
        let comment = reader.read_fixed_string(64);
        let external_id = reader.read_fixed_string(64);
        TradeDeal {
            ticket,
            order,
            time,
            time_msc,
            type_,
            entry,
            magic,
            position_id,
            reason,
            volume,
            price,
            commission,
            swap,
            profit,
            fee,
            symbol,
            comment,
            external_id,
        }
}

/// Reads one bar record.
fn read_rate(reader: &mut Reader) -> (v: Rate)
    requires
        old(reader).can_read(RATE_LEN as int),
    ensures
        final(reader).advanced(old(reader), RATE_LEN as int),
        rate_at(v, old(reader).bytes(), old(reader).position()),
{
        let time = reader.read_i64();
        let open = reader.read_u64();
        let high = reader.read_u64();
        let low = reader.read_u64();
        let close = reader.read_u64();
        let tick_volume = reader.read_u64();
        let spread = reader.read_i32();
        let real_volume = reader.read_u64();
        Rate {
            time,
            open,
            high,
            low,
            close,
            tick_volume,
            spread,
            real_volume,
        }
}

/// Reads one tick record.
fn read_tick(reader: &mut Reader) -> (v: Tick)
    requires
        old(reader).can_read(TICK_LEN as int),
    ensures
        final(reader).advanced(old(reader), TICK_LEN as int),
        tick_at(v, old(reader).bytes(), old(reader).position()),
{
        let time = reader.read_i64();
        let bid = reader.read_u64();
        let ask = reader.read_u64();
        let last = reader.read_u64();
        let volume = reader.read_u64();
        let time_msc = reader.read_i64();
        let flags = reader.read_u32();
        let volume_real = reader.read_u64();
        Tick {
            time,
            bid,
            ask,
            last,
            volume,
            time_msc,
            flags,
            volume_real,
        }
}

/// Reads one market-depth level.
fn read_book(reader: &mut Reader) -> (v: BookInfo)
    requires
        old(reader).can_read(BOOK_LEN as int),
    ensures
        final(reader).advanced(old(reader), BOOK_LEN as int),
        book_at(v, old(reader).bytes(), old(reader).position()),
{
        let type_ = reader.read_i64();
        let price = reader.read_u64();
        let volume = reader.read_i64();
        let volume_real = reader.read_u64();
        BookInfo {
            type_,
            price,
            volume,
            volume_real,
        }
}

/// Reads a trade result.
fn read_trade_result(reader: &mut Reader) -> (v: TradeResult)
    requires
        old(reader).can_read(TRADE_RESULT_LEN as int),
    ensures
        final(reader).advanced(old(reader), TRADE_RESULT_LEN as int),
        trade_result_at(v, old(reader).bytes(), old(reader).position()),
{
        let retcode = reader.read_u32() as i32;
        let deal = reader.read_i64();
        let order = reader.read_i64();
        let volume = reader.read_u64();
        let price = reader.read_u64();
        let bid = reader.read_u64();
        let ask = reader.read_u64();
        let comment = reader.read_fixed_string(200);
        let request_id = reader.read_u32() as i64;
        let retcode_external = reader.read_i32();
        TradeResult {
            retcode,
            deal,
            order,
            volume,
            price,
            bid,
            ask,
            comment,
            request_id,
            retcode_external,
        }
}

/// Reads a trade-check result.
fn read_check_result(reader: &mut Reader) -> (v: TradeCheckResult)
    requires
        old(reader).can_read(CHECK_RESULT_LEN as int),
    ensures
        final(reader).advanced(old(reader), CHECK_RESULT_LEN as int),
        check_result_at(v, old(reader).bytes(), old(reader).position()),
{
        let retcode = reader.read_u32() as i32;
        let balance = reader.read_u64();
        let equity = reader.read_u64();
        let profit = reader.read_u64();
        let margin = reader.read_u64();
        let margin_free = reader.read_u64();
        let margin_level = reader.read_u64();
        let comment = reader.read_fixed_string(200);
        TradeCheckResult {
            retcode,
            balance,
            equity,
            profit,
            margin,
            margin_free,
            margin_level,
            comment,
        }
}

/// Decodes the open positions of a command 121 response.
///
/// The response starts with the number of records (32-bit little-endian),
/// then holds the records back to back. When it ends before all of them,
/// the records that are complete are returned.
pub fn parse_positions_response(data: &[u8]) -> (res: Result<Vec<TradePosition>>)
    ensures
        data@.len() < 4 ==> (res matches Err(e) && invalid_with(e, "Response too short"@)),
        data@.len() >= 4 ==> (res matches Ok(v) && v@.len() == records_in(data@, POSITION_LEN as int)
            && forall|j: int|
            0 <= j < v@.len() ==> #[trigger] position_at(v@[j], data@, 4 + j * POSITION_LEN)),
{
    if data.len() < 4 {
        return Err(Mt5Error::InvalidResponse(String::from_str("Response too short")));
    }
    let mut reader = Reader::new(data);
    let count = reader.read_u32() as usize;
    let mut items: Vec<TradePosition> = Vec::new();
    let mut i: usize = 0;
    while i < count
        invariant
            reader.bytes() == data@,
            !reader.failed(),
            reader.position() == 4 + i * POSITION_LEN,
            reader.position() <= data@.len(),
            i <= count,
            count == le_u32(data@, 0),
            items@.len() == i,
            forall|j: int| 0 <= j < i ==> #[trigger] position_at(items@[j], data@, 4 + j * POSITION_LEN),
        ensures
            items@.len() == records_in(data@, POSITION_LEN as int),
            forall|j: int|
                0 <= j < items@.len() ==> #[trigger] position_at(items@[j], data@, 4 + j * POSITION_LEN),
        decreases count - i,
    {
        proof {
            lemma_records_fit(data@.len() as int, i as int, POSITION_LEN as int);
        }
        if reader.remaining() < POSITION_LEN {
            proof {
                lemma_records_end(data@.len() as int, i as int, POSITION_LEN as int);
            }
            break;
        }
        let item = read_position(&mut reader);
        items.push(item);
        i = i + 1;
    }
    Ok(items)
}

/// Decodes the orders of a command 131 or 141 response.
///
/// The response starts with the number of records (32-bit little-endian),
/// then holds the records back to back. When it ends before all of them,
/// the records that are complete are returned.
pub fn parse_orders_response(data: &[u8]) -> (res: Result<Vec<TradeOrder>>)
    ensures
        data@.len() < 4 ==> (res matches Err(e) && invalid_with(e, "Response too short"@)),
        data@.len() >= 4 ==> (res matches Ok(v) && v@.len() == records_in(data@, ORDER_LEN as int)
            && forall|j: int|
            0 <= j < v@.len() ==> #[trigger] order_at(v@[j], data@, 4 + j * ORDER_LEN)),
{
    if data.len() < 4 {
        return Err(Mt5Error::InvalidResponse(String::from_str("Response too short")));
    }
    let mut reader = Reader::new(data);
    let count = reader.read_u32() as usize;
    let mut items: Vec<TradeOrder> = Vec::new();
    let mut i: usize = 0;
    while i < count
        invariant
            reader.bytes() == data@,
            !reader.failed(),
            reader.position() == 4 + i * ORDER_LEN,
            reader.position() <= data@.len(),
            i <= count,
            count == le_u32(data@, 0),
            items@.len() == i,
            forall|j: int| 0 <= j < i ==> #[trigger] order_at(items@[j], data@, 4 + j * ORDER_LEN),
        ensures
            items@.len() == records_in(data@, ORDER_LEN as int),
            forall|j: int|
                0 <= j < items@.len() ==> #[trigger] order_at(items@[j], data@, 4 + j * ORDER_LEN),
        decreases count - i,
    {
        proof {
            lemma_records_fit(data@.len() as int, i as int, ORDER_LEN as int);
        }
        if reader.remaining() < ORDER_LEN {
            proof {
                lemma_records_end(data@.len() as int, i as int, ORDER_LEN as int);
            }
            break;
        }
        let item = read_order(&mut reader);
        items.push(item);
        i = i + 1;
    }
    Ok(items)
}

/// Decodes the deals of a command 151 response.
///
/// The response starts with the number of records (32-bit little-endian),
/// then holds the records back to back. When it ends before all of them,
/// the records that are complete are returned.
pub fn parse_deals_response(data: &[u8]) -> (res: Result<Vec<TradeDeal>>)
    ensures
        data@.len() < 4 ==> (res matches Err(e) && invalid_with(e, "Response too short"@)),
        data@.len() >= 4 ==> (res matches Ok(v) && v@.len() == records_in(data@, DEAL_LEN as int)
            && forall|j: int|
            0 <= j < v@.len() ==> #[trigger] deal_at(v@[j], data@, 4 + j * DEAL_LEN)),
{
    if data.len() < 4 {
        return Err(Mt5Error::InvalidResponse(String::from_str("Response too short")));
    }
    let mut reader = Reader::new(data);
    let count = reader.read_u32() as usize;
    let mut items: Vec<TradeDeal> = Vec::new();
    let mut i: usize = 0;
    while i < count
        invariant
            reader.bytes() == data@,
            !reader.failed(),
            reader.position() == 4 + i * DEAL_LEN,
            reader.position() <= data@.len(),
            i <= count,
            count == le_u32(data@, 0),
            items@.len() == i,
            forall|j: int| 0 <= j < i ==> #[trigger] deal_at(items@[j], data@, 4 + j * DEAL_LEN),
        ensures
            items@.len() == records_in(data@, DEAL_LEN as int),
            forall|j: int|
                0 <= j < items@.len() ==> #[trigger] deal_at(items@[j], data@, 4 + j * DEAL_LEN),
        decreases count - i,
    {
        proof {
            lemma_records_fit(data@.len() as int, i as int, DEAL_LEN as int);
        }
        if reader.remaining() < DEAL_LEN {
            proof {
                lemma_records_end(data@.len() as int, i as int, DEAL_LEN as int);
            }
            break;
        }
        let item = read_deal(&mut reader);
        items.push(item);
        i = i + 1;
    }
    Ok(items)
}

/// Decodes the bars of a command 106, 107 or 108 response.
///
/// The response starts with the number of records (32-bit little-endian),
/// then holds the records back to back. When it ends before all of them,
/// the records that are complete are returned.
pub fn parse_rates_response(data: &[u8]) -> (res: Result<Vec<Rate>>)
    ensures
        data@.len() < 4 ==> (res matches Err(e) && invalid_with(e, "Response too short"@)),
        data@.len() >= 4 ==> (res matches Ok(v) && v@.len() == records_in(data@, RATE_LEN as int)
            && forall|j: int|
            0 <= j < v@.len() ==> #[trigger] rate_at(v@[j], data@, 4 + j * RATE_LEN)),
{
    if data.len() < 4 {
        return Err(Mt5Error::InvalidResponse(String::from_str("Response too short")));
    }
    let mut reader = Reader::new(data);
    let count = reader.read_u32() as usize;
    let mut items: Vec<Rate> = Vec::new();
    let mut i: usize = 0;
    while i < count
        invariant
            reader.bytes() == data@,
            !reader.failed(),
            reader.position() == 4 + i * RATE_LEN,
            reader.position() <= data@.len(),
            i <= count,
            count == le_u32(data@, 0),
            items@.len() == i,
            forall|j: int| 0 <= j < i ==> #[trigger] rate_at(items@[j], data@, 4 + j * RATE_LEN),
        ensures
            items@.len() == records_in(data@, RATE_LEN as int),
            forall|j: int|
                0 <= j < items@.len() ==> #[trigger] rate_at(items@[j], data@, 4 + j * RATE_LEN),
        decreases count - i,
    {
        proof {
            lemma_records_fit(data@.len() as int, i as int, RATE_LEN as int);
        }
        if reader.remaining() < RATE_LEN {
            proof {
                lemma_records_end(data@.len() as int, i as int, RATE_LEN as int);
            }
            break;
        }
        let item = read_rate(&mut reader);
        items.push(item);
        i = i + 1;
    }
    Ok(items)
}

/// Decodes the ticks of a command 104 or 105 response.
///
/// The response starts with the number of records (32-bit little-endian),
/// then holds the records back to back. When it ends before all of them,
/// the records that are complete are returned.
pub fn parse_ticks_response(data: &[u8]) -> (res: Result<Vec<Tick>>)
    ensures
        data@.len() < 4 ==> (res matches Err(e) && invalid_with(e, "Response too short"@)),
        data@.len() >= 4 ==> (res matches Ok(v) && v@.len() == records_in(data@, TICK_LEN as int)
            && forall|j: int|
            0 <= j < v@.len() ==> #[trigger] tick_at(v@[j], data@, 4 + j * TICK_LEN)),
{
    if data.len() < 4 {
        return Err(Mt5Error::InvalidResponse(String::from_str("Response too short")));
    }
    let mut reader = Reader::new(data);
    let count = reader.read_u32() as usize;
    let mut items: Vec<Tick> = Vec::new();
    let mut i: usize = 0;
    while i < count
        invariant
            reader.bytes() == data@,
            !reader.failed(),
            reader.position() == 4 + i * TICK_LEN,
            reader.position() <= data@.len(),
            i <= count,
            count == le_u32(data@, 0),
            items@.len() == i,
            forall|j: int| 0 <= j < i ==> #[trigger] tick_at(items@[j], data@, 4 + j * TICK_LEN),
        ensures
            items@.len() == records_in(data@, TICK_LEN as int),
            forall|j: int|
                0 <= j < items@.len() ==> #[trigger] tick_at(items@[j], data@, 4 + j * TICK_LEN),
        decreases count - i,
    {
        proof {
            lemma_records_fit(data@.len() as int, i as int, TICK_LEN as int);
        }
        if reader.remaining() < TICK_LEN {
            proof {
                lemma_records_end(data@.len() as int, i as int, TICK_LEN as int);
            }
            break;
        }
        let item = read_tick(&mut reader);
        items.push(item);
        i = i + 1;
    }
    Ok(items)
}

/// Decodes the market-depth levels of a command 193 response.
///
/// The response starts with the number of records (32-bit little-endian),
/// then holds the records back to back. When it ends before all of them,
/// the records that are complete are returned.
pub fn parse_book_response(data: &[u8]) -> (res: Result<Vec<BookInfo>>)
    ensures
        data@.len() < 4 ==> (res matches Err(e) && invalid_with(e, "Response too short"@)),
        data@.len() >= 4 ==> (res matches Ok(v) && v@.len() == records_in(data@, BOOK_LEN as int)
            && forall|j: int|
            0 <= j < v@.len() ==> #[trigger] book_at(v@[j], data@, 4 + j * BOOK_LEN)),
{
    if data.len() < 4 {
        return Err(Mt5Error::InvalidResponse(String::from_str("Response too short")));
    }
    let mut reader = Reader::new(data);
    let count = reader.read_u32() as usize;
    let mut items: Vec<BookInfo> = Vec::new();
    let mut i: usize = 0;
    while i < count
        invariant
            reader.bytes() == data@,
            !reader.failed(),
            reader.position() == 4 + i * BOOK_LEN,
            reader.position() <= data@.len(),
            i <= count,
            count == le_u32(data@, 0),
            items@.len() == i,
            forall|j: int| 0 <= j < i ==> #[trigger] book_at(items@[j], data@, 4 + j * BOOK_LEN),
        ensures
            items@.len() == records_in(data@, BOOK_LEN as int),
            forall|j: int|
                0 <= j < items@.len() ==> #[trigger] book_at(items@[j], data@, 4 + j * BOOK_LEN),
        decreases count - i,
    {
        proof {
            lemma_records_fit(data@.len() as int, i as int, BOOK_LEN as int);
        }
        if reader.remaining() < BOOK_LEN {
            proof {
                lemma_records_end(data@.len() as int, i as int, BOOK_LEN as int);
            }
            break;
        }
        let item = read_book(&mut reader);
        items.push(item);
        i = i + 1;
    }
    Ok(items)
}

} // verus!
