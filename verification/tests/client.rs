use mt5_rs::client::{
    decode_account_info, decode_book_subscription, decode_login, decode_optional_symbol_info,
    decode_optional_tick, decode_symbol_select, decode_symbols, decode_terminal_info, decode_total,
    encode_trade_request, handshake_build, handshake_params, history_range_params,
    last_error_or_none, last_error_record, login_params, parse_book_response,
    parse_check_result_response, parse_deals_response, parse_orders_response,
    parse_positions_response, parse_rates_response, parse_ticks_response,
    parse_trade_result_response, rates_from_params, rates_from_pos_params, rates_range_params,
    symbol_filter_params, symbol_select_params, ticks_from_params, ticks_range_params,
    version_from_terminal_info,
};
use mt5_rs::codec::encode_string;
use mt5_rs::layout::{ACCOUNT_INFO_LEN, SYMBOL_INFO_LEN};
use mt5_rs::{Mt5Error, TradeRequest};

struct Bytes(Vec<u8>);

impl Bytes {
    fn new() -> Self {
        Bytes(Vec::new())
    }
    fn u32(mut self, v: u32) -> Self {
        self.0.extend_from_slice(&v.to_le_bytes());
        self
    }
    fn i32(mut self, v: i32) -> Self {
        self.0.extend_from_slice(&v.to_le_bytes());
        self
    }
    fn i64(mut self, v: i64) -> Self {
        self.0.extend_from_slice(&v.to_le_bytes());
        self
    }
    fn u64(mut self, v: u64) -> Self {
        self.0.extend_from_slice(&v.to_le_bytes());
        self
    }
    fn u16(mut self, v: u16) -> Self {
        self.0.extend_from_slice(&v.to_le_bytes());
        self
    }
    fn f64(mut self, v: f64) -> Self {
        self.0.extend_from_slice(&v.to_le_bytes());
        self
    }
    fn b(mut self, v: bool) -> Self {
        self.0.push(v as u8);
        self
    }
    fn slot(mut self, s: &str, width: usize) -> Self {
        let start = self.0.len();
        for u in s.encode_utf16() {
            self.0.extend_from_slice(&u.to_le_bytes());
        }
        self.0.resize(start + width, 0);
        self
    }
    fn zeros(mut self, n: usize) -> Self {
        self.0.resize(self.0.len() + n, 0);
        self
    }
}

fn invalid(r: Result<impl std::fmt::Debug, Mt5Error>) -> String {
    match r {
        Err(Mt5Error::InvalidResponse(m)) => m,
        other => panic!("unexpected {:?}", other),
    }
}

#[test]
fn handshake_and_login_parameters() {
    assert_eq!(handshake_params(), vec![3, 0, 0, 0, 2, 0, 0, 0, 0x47, 0, 0x6f, 0]);
    assert_eq!(handshake_build(&[0xb8, 0x16, 0, 0, 9], 0), 5816);
    assert_eq!(handshake_build(&[1, 2], 42), 42);
    let mut want = 12345678i64.to_le_bytes().to_vec();
    want.extend(encode_string("pw"));
    want.extend(encode_string("MetaQuotes-Demo"));
    assert_eq!(login_params(12345678, "pw", "MetaQuotes-Demo"), want);
}

#[test]
fn login_status() {
    assert!(decode_login(&[0, 0, 0, 0]).is_ok());
    match decode_login(&[5, 0, 0, 0]) {
        Err(Mt5Error::CommandFailed { cmd, error_code, error }) => {
            assert_eq!(cmd, 4);
            assert_eq!(error_code, 5);
            assert_eq!(error, "Login failed with status: 5");
        }
        other => panic!("unexpected {:?}", other),
    }
    assert_eq!(invalid(decode_login(&[0, 0])), "Response too short");
}

fn account_bytes() -> Vec<u8> {
    let mut b = Bytes::new().i64(12345678).i32(0).i32(100).i32(200).i32(1).b(true).b(false).i32(2).i32(2).b(true);
    for k in 0..14 {
        b = b.f64(1000.5 + k as f64);
    }
    b.slot("Trader", 256).slot("MetaQuotes-Demo", 128).slot("USD", 64).slot("MetaQuotes Ltd.", 256).0
}

#[test]
fn account_record() {
    let bytes = account_bytes();
    assert_eq!(bytes.len(), ACCOUNT_INFO_LEN);
    let a = decode_account_info(&bytes).unwrap();
    assert_eq!(a.login, 12345678);
    assert_eq!(a.trade_mode, 0);
    assert_eq!(a.leverage, 100);
    assert_eq!(a.limit_orders, 200);
    assert_eq!(a.margin_so_mode, 1);
    assert!(a.trade_allowed);
    assert!(!a.trade_expert);
    assert_eq!(a.margin_mode, 2);
    assert_eq!(a.currency_digits, 2);
    assert!(a.fifo_close);
    assert_eq!(f64::from_bits(a.balance), 1000.5);
    assert_eq!(f64::from_bits(a.equity), 1003.5);
    assert_eq!(f64::from_bits(a.free_margin), 1005.5);
    assert_eq!(f64::from_bits(a.commission_blocked), 1013.5);
    assert_eq!(a.name, "Trader");
    assert_eq!(a.server, "MetaQuotes-Demo");
    assert_eq!(a.currency, "USD");
    assert_eq!(a.company, "MetaQuotes Ltd.");
}

#[test]
fn account_record_length_errors() {
    let bytes = account_bytes();
    assert_eq!(invalid(decode_account_info(&bytes[..7])), "Response too short");
    assert_eq!(invalid(decode_account_info(&bytes[..100])), "Response too short for strings: 100 < 147");
    assert_eq!(invalid(decode_account_info(&bytes[..147])), "Response too short for strings: 147 < 147");
    assert_eq!(invalid(decode_account_info(&bytes[..500])), "Failed to read strings");
}

fn text_at(buf: &mut Vec<u8>, offset: usize, s: &str) {
    for (i, u) in s.encode_utf16().enumerate() {
        let b = u.to_le_bytes();
        buf[offset + 2 * i] = b[0];
        buf[offset + 2 * i + 1] = b[1];
    }
}

#[test]
fn terminal_record_and_version() {
    let mut buf = vec![0u8; 3200];
    buf[0..2].copy_from_slice(&5836u16.to_le_bytes());
    buf[2] = 1;
    buf[3] = 0;
    buf[4] = 1;
    buf[5] = 0;
    buf[6] = 1;
    buf[7] = 0;
    buf[8] = 1;
    buf[9] = 0;
    buf[10] = 1;
    buf[11] = 0;
    buf[12..16].copy_from_slice(&100000u32.to_le_bytes());
    buf[17..19].copy_from_slice(&936u16.to_le_bytes());
    buf[21..23].copy_from_slice(&37u16.to_le_bytes());
    buf[24..32].copy_from_slice(&12.5f64.to_le_bytes());
    buf[32..40].copy_from_slice(&0.25f64.to_le_bytes());
    text_at(&mut buf, 41, "MetaQuotes Ltd.");
    text_at(&mut buf, 561, "MetaTrader 5");
    text_at(&mut buf, 1081, "Chinese");
    text_at(&mut buf, 1601, r"C:\MT5");
    text_at(&mut buf, 2121, r"C:\Data");
    text_at(&mut buf, 2641, r"C:\Common");
    let t = decode_terminal_info(&buf).unwrap();
    assert_eq!(t.build, 5836);
    assert!(t.community_account && !t.community_connection);
    assert!(t.notifications_enabled && !t.mqid);
    assert!(t.connected && !t.dlls_allowed && t.trade_allowed && !t.trade_api_disabled);
    assert!(t.email_enabled && !t.ftp_enabled);
    assert_eq!(t.max_bars, 100000);
    assert_eq!(t.code_page, 936);
    assert_eq!(t.ping_last, 37);
    assert_eq!(f64::from_bits(t.community_balance), 12.5);
    assert_eq!(f64::from_bits(t.retransmission), 0.25);
    assert_eq!(t.company, "MetaQuotes Ltd.");
    assert_eq!(t.name, "MetaTrader 5");
    assert_eq!(t.language, "Chinese");
    assert_eq!(t.path, r"C:\MT5");
    assert_eq!(t.data_path, r"C:\Data");
    assert_eq!(t.common_data_path, r"C:\Common");
    let v = version_from_terminal_info(&t);
    assert_eq!(v.version, 5836);
    assert_eq!(v.build, 5836);
    assert_eq!(v.build_date, "MetaQuotes Ltd. (MetaTrader 5)");
    assert_eq!(invalid(decode_terminal_info(&buf[..39])), "Response too short");
    // the texts past the end of a short response are empty
    let short = decode_terminal_info(&buf[..570]).unwrap();
    assert_eq!(short.company, "MetaQuotes Ltd.");
    assert_eq!(short.name, "Meta");
    assert_eq!(short.language, "");
}

#[test]
fn totals() {
    assert_eq!(decode_total(&[7, 1, 0, 0]).unwrap(), 263);
    assert_eq!(decode_total(&[0xff, 0xff, 0xff, 0xff]).unwrap(), 4294967295);
    assert_eq!(invalid(decode_total(&[1])), "Response too short");
}

fn symbol_bytes(name: &str, bid: f64) -> Vec<u8> {
    let mut b = Bytes::new().b(false).u32(0).b(true).b(true);
    for k in 0..7 {
        b = b.i64(10 + k);
    }
    b = b.u32(5).u32(12).b(true).u32(10).u32(0).u32(4).i64(0).i64(0);
    for _ in 0..5 {
        b = b.u32(3);
    }
    b = b.b(false);
    for _ in 0..6 {
        b = b.u32(7);
    }
    b = b.f64(bid);
    for k in 1..52 {
        b = b.f64(k as f64);
    }
    b.slot("", 64)
        .slot("Forex", 128)
        .slot("EUR", 32)
        .slot("USD", 32)
        .slot("EUR", 32)
        .slot("", 512)
        .slot("Euro vs US Dollar", 64)
        .slot("", 64)
        .slot("", 1024)
        .slot("", 32)
        .slot("", 128)
        .slot(r"Forex\EURUSD", 256)
        .slot(name, 64)
        .0
}

#[test]
fn symbol_records() {
    let one = symbol_bytes("EURUSD", 1.08);
    assert_eq!(one.len(), SYMBOL_INFO_LEN);
    let s = decode_optional_symbol_info(&one).unwrap().unwrap();
    assert!(!s.custom && s.select && s.visible && s.spread_float);
    assert_eq!(s.session_deals, 10);
    assert_eq!(s.time, 16);
    assert_eq!(s.digits, 5);
    assert_eq!(s.spread, 12);
    assert_eq!(s.ticks_book_depth, 10);
    assert_eq!(s.trade_mode, 4);
    assert_eq!(s.option_right, 7);
    assert_eq!(f64::from_bits(s.bid), 1.08);
    assert_eq!(f64::from_bits(s.bidhigh), 1.0);
    assert_eq!(f64::from_bits(s.trade_contract_size), 18.0);
    assert_eq!(f64::from_bits(s.margin_initial), 28.0);
    assert_eq!(f64::from_bits(s.price_sensitivity), 51.0);
    assert_eq!(s.category, "Forex");
    assert_eq!(s.currency_base, "EUR");
    assert_eq!(s.currency_profit, "USD");
    assert_eq!(s.description, "Euro vs US Dollar");
    assert_eq!(s.path, r"Forex\EURUSD");
    assert_eq!(s.name, "EURUSD");
    assert!(decode_optional_symbol_info(&[]).unwrap().is_none());
    assert_eq!(invalid(decode_optional_symbol_info(&one[..100])), "Failed to read symbol info");

    let mut list = 2u32.to_le_bytes().to_vec();
    list.extend(symbol_bytes("EURUSD", 1.08));
    list.extend(symbol_bytes("GBPUSD", 1.27));
    let all = decode_symbols(&list).unwrap();
    assert_eq!(all.len(), 2);
    assert_eq!(all[1].name, "GBPUSD");
    assert_eq!(f64::from_bits(all[1].bid), 1.27);
    assert_eq!(invalid(decode_symbols(&list[..list.len() - 1])), "Failed to read symbol info");
    assert_eq!(invalid(decode_symbols(&[2, 0])), "Response too short");
    assert_eq!(decode_symbols(&[0, 0, 0, 0]).unwrap().len(), 0);
}

#[test]
fn tick_record() {
    let b = Bytes::new().i64(1700000000).f64(1.1).f64(1.2).f64(1.15).u64(3).i64(1700000000123).u32(6).f64(3.5).0;
    let t = decode_optional_tick(&b).unwrap().unwrap();
    assert_eq!(t.time, 1700000000);
    assert_eq!(f64::from_bits(t.bid), 1.1);
    assert_eq!(f64::from_bits(t.ask), 1.2);
    assert_eq!(f64::from_bits(t.last), 1.15);
    assert_eq!(t.volume, 3);
    assert_eq!(t.time_msc, 1700000000123);
    assert_eq!(t.flags, 6);
    assert_eq!(f64::from_bits(t.volume_real), 3.5);
    assert!(decode_optional_tick(&[]).unwrap().is_none());
    assert_eq!(invalid(decode_optional_tick(&b[..59])), "Failed to read tick info");
}

#[test]
fn selection_and_subscription_status() {
    assert_eq!(symbol_select_params("EURUSD", true), {
        let mut v = encode_string("EURUSD");
        v.push(1);
        v
    });
    assert_eq!(*symbol_select_params("X", false).last().unwrap(), 0);
    assert!(decode_symbol_select(&[]).unwrap());
    assert!(decode_symbol_select(&[1, 0, 0, 0]).unwrap());
    assert!(!decode_symbol_select(&[0, 0, 0, 0]).unwrap());
    assert_eq!(invalid(decode_symbol_select(&[1, 0])), "Response too short");
    assert!(decode_book_subscription(&[]).unwrap());
    assert!(decode_book_subscription(&[0, 0, 0, 0]).unwrap());
    assert!(!decode_book_subscription(&[1, 0, 0, 0]).unwrap());
    assert_eq!(invalid(decode_book_subscription(&[1])), "Response too short");
}

#[test]
fn query_parameters() {
    assert_eq!(symbol_filter_params(None), Vec::<u8>::new());
    assert_eq!(symbol_filter_params(Some("EURUSD")), encode_string("EURUSD"));
    let mut want = encode_string("EURUSD");
    want.extend_from_slice(&16385u32.to_le_bytes());
    want.extend_from_slice(&(-1i64 as u32).to_le_bytes());
    want.extend_from_slice(&100u32.to_le_bytes());
    assert_eq!(rates_from_pos_params("EURUSD", 16385, -1, 100), want);
    let mut want = encode_string("EURUSD");
    want.extend_from_slice(&1u32.to_le_bytes());
    want.extend_from_slice(&1700000000i64.to_le_bytes());
    want.extend_from_slice(&(-5i32 as u32).to_le_bytes());
    assert_eq!(rates_from_params("EURUSD", 1, 1700000000, -5), want);
    let mut want = encode_string("EURUSD");
    want.extend_from_slice(&5u32.to_le_bytes());
    want.extend_from_slice(&10i64.to_le_bytes());
    want.extend_from_slice(&20i64.to_le_bytes());
    assert_eq!(rates_range_params("EURUSD", 5, 10, 20), want);
    let mut want = encode_string("EURUSD");
    want.extend_from_slice(&1700000000000i64.to_le_bytes());
    want.extend_from_slice(&10u32.to_le_bytes());
    want.extend_from_slice(&(-1i32 as u32).to_le_bytes());
    assert_eq!(ticks_from_params("EURUSD", 1700000000, 10, -1), want);
    let mut want = encode_string("EURUSD");
    want.extend_from_slice(&1000i64.to_le_bytes());
    want.extend_from_slice(&2000i64.to_le_bytes());
    want.extend_from_slice(&2u32.to_le_bytes());
    assert_eq!(ticks_range_params("EURUSD", 1, 2, 2), want);
    let mut want = 10i64.to_le_bytes().to_vec();
    want.extend_from_slice(&(-20i64).to_le_bytes());
    assert_eq!(history_range_params(10, -20), want);
}

#[test]
fn trade_request_layout() {
    let req = TradeRequest {
        action: 1,
        magic: 234000,
        symbol: "EURUSD".to_string(),
        volume: 0.1f64.to_bits(),
        price: 1.0855f64.to_bits(),
        sl: 1.08f64.to_bits(),
        deviation: 20,
        type_time: 0,
        comment: "a comment that is longer than thirty-one units".to_string(),
        position: 42,
        ..Default::default()
    };
    let b = encode_trade_request(&req);
    assert_eq!(b.len(), 232);
    assert_eq!(u32::from_le_bytes(b[0..4].try_into().unwrap()), 1);
    assert_eq!(i64::from_le_bytes(b[4..12].try_into().unwrap()), 234000);
    assert_eq!(&b[20..32], &[0x45, 0, 0x55, 0, 0x52, 0, 0x55, 0, 0x53, 0, 0x44, 0]);
    assert!(b[32..84].iter().all(|&x| x == 0));
    assert_eq!(f64::from_le_bytes(b[84..92].try_into().unwrap()), 0.1);
    assert_eq!(f64::from_le_bytes(b[92..100].try_into().unwrap()), 1.0855);
    assert_eq!(f64::from_le_bytes(b[108..116].try_into().unwrap()), 1.08);
    assert_eq!(u64::from_le_bytes(b[124..132].try_into().unwrap()), 20);
    // the comment keeps 31 units and a terminating NUL
    let comment: Vec<u16> = b[152..216].chunks(2).map(|c| u16::from_le_bytes([c[0], c[1]])).collect();
    assert_eq!(String::from_utf16(&comment[..31]).unwrap(), "a comment that is longer than t");
    assert_eq!(comment[31], 0);
    assert_eq!(i64::from_le_bytes(b[216..224].try_into().unwrap()), 42);
    assert_eq!(i64::from_le_bytes(b[224..232].try_into().unwrap()), 0);
    let empty = encode_trade_request(&TradeRequest::default());
    assert_eq!(empty, vec![0u8; 232]);
}

fn position_bytes(ticket: i64, symbol: &str) -> Vec<u8> {
    let mut b = Bytes::new();
    for k in 0..5 {
        b = b.i64(ticket + k);
    }
    b = b.u32(1).i64(99).i64(ticket).u32(3);
    for k in 0..7 {
        b = b.f64(k as f64 + 0.5);
    }
    b.slot(symbol, 64).slot("hedge", 64).slot("", 64).0
}

#[test]
fn positions_list_keeps_whole_records() {
    let mut data = 3u32.to_le_bytes().to_vec();
    data.extend(position_bytes(100, "EURUSD"));
    data.extend(position_bytes(200, "GBPUSD"));
    let mut third = position_bytes(300, "USDJPY");
    third.truncate(100);
    data.extend(third);
    let p = parse_positions_response(&data).unwrap();
    assert_eq!(p.len(), 2);
    assert_eq!(p[0].ticket, 100);
    assert_eq!(p[0].time_update_msc, 104);
    assert_eq!(p[0].type_, 1);
    assert_eq!(p[0].magic, 99);
    assert_eq!(p[0].reason, 3);
    assert_eq!(f64::from_bits(p[0].volume), 0.5);
    assert_eq!(f64::from_bits(p[0].profit), 6.5);
    assert_eq!(p[0].symbol, "EURUSD");
    assert_eq!(p[0].comment, "hedge");
    assert_eq!(p[1].symbol, "GBPUSD");
    assert_eq!(parse_positions_response(&[0, 0, 0, 0]).unwrap().len(), 0);
    // the count bounds the list even when more bytes follow
    let mut one = 1u32.to_le_bytes().to_vec();
    one.extend(position_bytes(1, "A"));
    one.extend(position_bytes(2, "B"));
    assert_eq!(parse_positions_response(&one).unwrap().len(), 1);
    assert_eq!(invalid(parse_positions_response(&[1, 0, 0])), "Response too short");
}

#[test]
fn orders_and_deals_lists() {
    let mut b = Bytes::new().u32(1);
    for k in 0..6 {
        b = b.i64(k);
    }
    b = b.u32(2).u32(1).u32(0).u32(4).i64(7).i64(8).i64(9).u32(5);
    for k in 0..7 {
        b = b.f64(k as f64);
    }
    b = b.slot("EURUSD", 64).slot("c", 64).slot("x", 64);
    let o = parse_orders_response(&b.0).unwrap();
    assert_eq!(o.len(), 1);
    assert_eq!(o[0].time_expiration, 5);
    assert_eq!(o[0].type_, 2);
    assert_eq!(o[0].state, 4);
    assert_eq!(o[0].position_by_id, 9);
    assert_eq!(o[0].reason, 5);
    assert_eq!(f64::from_bits(o[0].price_stoplimit), 6.0);
    assert_eq!(o[0].external_id, "x");

    let mut d = Bytes::new().u32(1).i64(11).i64(12).i64(13).i64(14).u32(1).u32(0).i64(15).i64(16).u32(2);
    for k in 0..6 {
        d = d.f64(k as f64 - 1.0);
    }
    d = d.slot("XAUUSD", 64).slot("", 64).slot("", 64);
    let deals = parse_deals_response(&d.0).unwrap();
    assert_eq!(deals.len(), 1);
    assert_eq!(deals[0].order, 12);
    assert_eq!(deals[0].entry, 0);
    assert_eq!(deals[0].position_id, 16);
    assert_eq!(f64::from_bits(deals[0].fee), 4.0);
    assert_eq!(deals[0].symbol, "XAUUSD");
}

#[test]
fn rates_ticks_and_book_lists() {
    let r = Bytes::new().u32(2)
        .i64(60).f64(1.0).f64(2.0).f64(0.5).f64(1.5).u64(10).i32(-3).u64(11)
        .i64(120).f64(1.5).f64(2.5).f64(1.0).f64(2.0).u64(20).i32(4).u64(21);
    let rates = parse_rates_response(&r.0).unwrap();
    assert_eq!(rates.len(), 2);
    assert_eq!(rates[0].spread, -3);
    assert_eq!(f64::from_bits(rates[1].close), 2.0);
    assert_eq!(rates[1].real_volume, 21);

    let t = Bytes::new().u32(1).i64(1).f64(1.1).f64(1.2).f64(0.0).u64(0).i64(1001).u32(2).f64(0.0);
    let ticks = parse_ticks_response(&t.0).unwrap();
    assert_eq!(ticks.len(), 1);
    assert_eq!(ticks[0].time_msc, 1001);
    assert_eq!(ticks[0].flags, 2);

    let k = Bytes::new().u32(2).i64(1).f64(1.1).i64(5).f64(5.0).i64(2).f64(1.0).i64(6).f64(6.5).zeros(3);
    let book = parse_book_response(&k.0).unwrap();
    assert_eq!(book.len(), 2);
    assert_eq!(book[1].type_, 2);
    assert_eq!(book[1].volume, 6);
    assert_eq!(f64::from_bits(book[1].volume_real), 6.5);
    assert_eq!(invalid(parse_book_response(&[])), "Response too short");
    assert_eq!(invalid(parse_rates_response(&[0])), "Response too short");
    assert_eq!(invalid(parse_ticks_response(&[0, 0])), "Response too short");
    assert_eq!(invalid(parse_orders_response(&[])), "Response too short");
    assert_eq!(invalid(parse_deals_response(&[])), "Response too short");
}

#[test]
fn trade_and_check_results() {
    let r = Bytes::new().u32(10009).i64(555).i64(556).f64(0.1).f64(1.0855).f64(1.0854).f64(1.0856)
        .slot("Request executed", 200).u32(77).i32(0);
    let res = parse_trade_result_response(&r.0).unwrap();
    assert_eq!(res.retcode, 10009);
    assert_eq!(res.deal, 555);
    assert_eq!(res.order, 556);
    assert_eq!(f64::from_bits(res.price), 1.0855);
    assert_eq!(res.comment, "Request executed");
    assert_eq!(res.request_id, 77);
    assert_eq!(res.retcode_external, 0);
    // a rejected trade is a result, not an error
    let rejected = Bytes::new().u32(10019).zeros(256);
    assert_eq!(parse_trade_result_response(&rejected.0).unwrap().retcode, 10019);
    assert_eq!(invalid(parse_trade_result_response(&r.0[..259])), "Response too short: 259 bytes, want 260");

    let c = Bytes::new().u32(0).f64(1000.0).f64(990.0).f64(-10.0).f64(5.0).f64(985.0).f64(19800.0).slot("Done", 200);
    let chk = parse_check_result_response(&c.0).unwrap();
    assert_eq!(chk.retcode, 0);
    assert_eq!(f64::from_bits(chk.profit), -10.0);
    assert_eq!(f64::from_bits(chk.margin_level), 19800.0);
    assert_eq!(chk.comment, "Done");
    assert_eq!(invalid(parse_check_result_response(&c.0[..10])), "Response too short: 10 bytes, want 252");
}

#[test]
fn last_error_bookkeeping() {
    let ok: Result<Vec<u8>, Mt5Error> = Ok(vec![1]);
    assert_eq!(last_error_record(&ok), (0, String::new()));
    let refused: Result<Vec<u8>, Mt5Error> =
        Err(Mt5Error::CommandFailed { cmd: 161, error_code: 10030, error: "bad fill".to_string() });
    assert_eq!(last_error_record(&refused), (10030, "Command failed: cmd=161, code=10030, error=bad fill".to_string()));
    let timeout: Result<Vec<u8>, Mt5Error> = Err(Mt5Error::Timeout("late".to_string()));
    assert_eq!(last_error_record(&timeout), (-10086, "Timeout: late".to_string()));
    assert_eq!(last_error_or_none(None), (0, String::new()));
    assert_eq!(last_error_or_none(Some((5, "x".to_string()))), (5, "x".to_string()));
}
