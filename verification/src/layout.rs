//! The byte layout of every record the terminal sends: for each, the
//! predicate that says a decoded value is the reading of the bytes at an
//! offset, and the record's size.
use vstd::prelude::*;

use crate::codec::{slot_text, text_from};
use crate::types::{
    AccountInfo, BookInfo, Rate, SymbolInfo, TerminalInfo, Tick, TradeCheckResult, TradeDeal, TradeOrder,
    TradePosition, TradeResult,
};
use crate::wire::{le_u16, le_u32, le_u64};

verus! {

/// The bytes of an account record: 147 of numbers, then four string slots.
pub const ACCOUNT_INFO_LEN: usize = 851;

/// The bytes of a symbol record: its numbers, then 2432 bytes of string slots.
pub const SYMBOL_INFO_LEN: usize = 2993;

/// The bytes of an open-position record.
pub const POSITION_LEN: usize = 312;

/// The bytes of an order record.
pub const ORDER_LEN: usize = 340;

/// The bytes of a deal record.
pub const DEAL_LEN: usize = 300;

/// The bytes of a bar record.
pub const RATE_LEN: usize = 60;

/// The bytes of a tick record.
pub const TICK_LEN: usize = 60;

/// The bytes of a market-depth level.
pub const BOOK_LEN: usize = 32;

/// The bytes of a trade result.
pub const TRADE_RESULT_LEN: usize = 260;

/// The bytes of a trade-check result.
pub const CHECK_RESULT_LEN: usize = 252;

/// An account record decoded from the bytes at `b[o..]` (command 190's response).
pub open spec fn account_info_at(a: AccountInfo, b: Seq<u8>, o: int) -> bool {
    &&& a.login == le_u64(b, o) as i64
    &&& a.trade_mode == le_u32(b, o + 8) as i32
    &&& a.leverage == le_u32(b, o + 12) as i32
    &&& a.limit_orders == le_u32(b, o + 16) as i32
    &&& a.margin_so_mode == le_u32(b, o + 20) as i32
    &&& a.trade_allowed == (b[o + 24] != 0)
    &&& a.trade_expert == (b[o + 25] != 0)
    &&& a.margin_mode == le_u32(b, o + 26) as i32
    &&& a.currency_digits == le_u32(b, o + 30) as i32
    &&& a.fifo_close == (b[o + 34] != 0)
    &&& a.balance == le_u64(b, o + 35)
    &&& a.credit == le_u64(b, o + 43)
    &&& a.profit == le_u64(b, o + 51)
    &&& a.equity == le_u64(b, o + 59)
    &&& a.margin == le_u64(b, o + 67)
    &&& a.free_margin == le_u64(b, o + 75)
    &&& a.margin_level == le_u64(b, o + 83)
    &&& a.margin_so_call == le_u64(b, o + 91)
    &&& a.margin_so_so == le_u64(b, o + 99)
    &&& a.margin_initial == le_u64(b, o + 107)
    &&& a.margin_maintenance == le_u64(b, o + 115)
    &&& a.assets == le_u64(b, o + 123)
    &&& a.liabilities == le_u64(b, o + 131)
    &&& a.commission_blocked == le_u64(b, o + 139)
    &&& a.name@ == slot_text(b, o + 147, 256)
    &&& a.server@ == slot_text(b, o + 403, 128)
    &&& a.currency@ == slot_text(b, o + 531, 64)
    &&& a.company@ == slot_text(b, o + 595, 256)
}

/// A symbol record decoded from the bytes at `b[o..]`.
pub open spec fn symbol_info_at(s: SymbolInfo, b: Seq<u8>, o: int) -> bool {
    &&& s.custom == (b[o] != 0)
    &&& s.chart_mode == le_u32(b, o + 1)
    &&& s.select == (b[o + 5] != 0)
    &&& s.visible == (b[o + 6] != 0)
    &&& s.session_deals == le_u64(b, o + 7) as i64
    &&& s.session_buy_orders == le_u64(b, o + 15) as i64
    &&& s.session_sell_orders == le_u64(b, o + 23) as i64
    &&& s.volume == le_u64(b, o + 31) as i64
    &&& s.volume_high == le_u64(b, o + 39) as i64
    &&& s.volume_low == le_u64(b, o + 47) as i64
    &&& s.time == le_u64(b, o + 55) as i64
    &&& s.digits == le_u32(b, o + 63)
    &&& s.spread == le_u32(b, o + 67)
    &&& s.spread_float == (b[o + 71] != 0)
    &&& s.ticks_book_depth == le_u32(b, o + 72)
    &&& s.trade_calc_mode == le_u32(b, o + 76)
    &&& s.trade_mode == le_u32(b, o + 80)
    &&& s.start_time == le_u64(b, o + 84) as i64
    &&& s.expiration_time == le_u64(b, o + 92) as i64
    &&& s.trade_stops_level == le_u32(b, o + 100)
    &&& s.trade_freeze_level == le_u32(b, o + 104)
    &&& s.trade_exe_mode == le_u32(b, o + 108)
    &&& s.swap_mode == le_u32(b, o + 112)
    &&& s.swap_rollover3days == le_u32(b, o + 116)
    &&& s.margin_hedged_use_leg == (b[o + 120] != 0)
    &&& s.expiration_mode == le_u32(b, o + 121)
    &&& s.filling_mode == le_u32(b, o + 125)
    &&& s.order_mode == le_u32(b, o + 129)
    &&& s.order_gtc_mode == le_u32(b, o + 133)
    &&& s.option_mode == le_u32(b, o + 137)
    &&& s.option_right == le_u32(b, o + 141)
    &&& s.bid == le_u64(b, o + 145)
    &&& s.bidhigh == le_u64(b, o + 153)
    &&& s.bidlow == le_u64(b, o + 161)
    &&& s.ask == le_u64(b, o + 169)
    &&& s.askhigh == le_u64(b, o + 177)
    &&& s.asklow == le_u64(b, o + 185)
    &&& s.last == le_u64(b, o + 193)
    &&& s.lasthigh == le_u64(b, o + 201)
    &&& s.lastlow == le_u64(b, o + 209)
    &&& s.volume_real == le_u64(b, o + 217)
    &&& s.volumehigh_real == le_u64(b, o + 225)
    &&& s.volumelow_real == le_u64(b, o + 233)
    &&& s.option_strike == le_u64(b, o + 241)
    &&& s.point == le_u64(b, o + 249)
    &&& s.trade_tick_value == le_u64(b, o + 257)
    &&& s.trade_tick_value_profit == le_u64(b, o + 265)
    &&& s.trade_tick_value_loss == le_u64(b, o + 273)
    &&& s.trade_tick_size == le_u64(b, o + 281)
    &&& s.trade_contract_size == le_u64(b, o + 289)
    &&& s.trade_accrued_interest == le_u64(b, o + 297)
    &&& s.trade_face_value == le_u64(b, o + 305)
    &&& s.trade_liquidity_rate == le_u64(b, o + 313)
    &&& s.volume_min == le_u64(b, o + 321)
    &&& s.volume_max == le_u64(b, o + 329)
    &&& s.volume_step == le_u64(b, o + 337)
    &&& s.volume_limit == le_u64(b, o + 345)
    &&& s.swap_long == le_u64(b, o + 353)
    &&& s.swap_short == le_u64(b, o + 361)
    &&& s.margin_initial == le_u64(b, o + 369)
    &&& s.margin_maintenance == le_u64(b, o + 377)
    &&& s.session_volume == le_u64(b, o + 385)
    &&& s.session_turnover == le_u64(b, o + 393)
    &&& s.session_interest == le_u64(b, o + 401)
    &&& s.session_buy_orders_volume == le_u64(b, o + 409)
    &&& s.session_sell_orders_volume == le_u64(b, o + 417)
    &&& s.session_open == le_u64(b, o + 425)
    &&& s.session_close == le_u64(b, o + 433)
    &&& s.session_aw == le_u64(b, o + 441)
    &&& s.session_price_settlement == le_u64(b, o + 449)
    &&& s.session_price_limit_min == le_u64(b, o + 457)
    &&& s.session_price_limit_max == le_u64(b, o + 465)
    &&& s.margin_hedged == le_u64(b, o + 473)
    &&& s.price_change == le_u64(b, o + 481)
    &&& s.price_volatility == le_u64(b, o + 489)
    &&& s.price_theoretical == le_u64(b, o + 497)
    &&& s.price_greeks_delta == le_u64(b, o + 505)
    &&& s.price_greeks_theta == le_u64(b, o + 513)
    &&& s.price_greeks_gamma == le_u64(b, o + 521)
    &&& s.price_greeks_vega == le_u64(b, o + 529)
    &&& s.price_greeks_rho == le_u64(b, o + 537)
    &&& s.price_greeks_omega == le_u64(b, o + 545)
    &&& s.price_sensitivity == le_u64(b, o + 553)
    &&& s.basis@ == slot_text(b, o + 561, 64)
    &&& s.category@ == slot_text(b, o + 625, 128)
    &&& s.currency_base@ == slot_text(b, o + 753, 32)
    &&& s.currency_profit@ == slot_text(b, o + 785, 32)
    &&& s.currency_margin@ == slot_text(b, o + 817, 32)
    &&& s.bank@ == slot_text(b, o + 849, 512)
    &&& s.description@ == slot_text(b, o + 1361, 64)
    &&& s.exchange@ == slot_text(b, o + 1425, 64)
    &&& s.formula@ == slot_text(b, o + 1489, 1024)
    &&& s.isin@ == slot_text(b, o + 2513, 32)
    &&& s.page@ == slot_text(b, o + 2545, 128)
    &&& s.path@ == slot_text(b, o + 2673, 256)
    &&& s.name@ == slot_text(b, o + 2929, 64)
}

/// An open-position record decoded from the bytes at `b[o..]`.
pub open spec fn position_at(p: TradePosition, b: Seq<u8>, o: int) -> bool {
    &&& p.ticket == le_u64(b, o) as i64
    &&& p.time == le_u64(b, o + 8) as i64
    &&& p.time_msc == le_u64(b, o + 16) as i64
    &&& p.time_update == le_u64(b, o + 24) as i64
    &&& p.time_update_msc == le_u64(b, o + 32) as i64
    &&& p.type_ == le_u32(b, o + 40) as i32
    &&& p.magic == le_u64(b, o + 44) as i64
    &&& p.identifier == le_u64(b, o + 52) as i64
    &&& p.reason == le_u32(b, o + 60) as i32
    &&& p.volume == le_u64(b, o + 64)
    &&& p.price_open == le_u64(b, o + 72)
    &&& p.price_current == le_u64(b, o + 80)
    &&& p.price_sl == le_u64(b, o + 88)
    &&& p.price_tp == le_u64(b, o + 96)
    &&& p.swap == le_u64(b, o + 104)
    &&& p.profit == le_u64(b, o + 112)
    &&& p.symbol@ == slot_text(b, o + 120, 64)
    &&& p.comment@ == slot_text(b, o + 184, 64)
    &&& p.external_id@ == slot_text(b, o + 248, 64)
}

/// An order record decoded from the bytes at `b[o..]`.
pub open spec fn order_at(r: TradeOrder, b: Seq<u8>, o: int) -> bool {
    &&& r.ticket == le_u64(b, o) as i64
    &&& r.time_setup == le_u64(b, o + 8) as i64
    &&& r.time_setup_msc == le_u64(b, o + 16) as i64
    &&& r.time_done == le_u64(b, o + 24) as i64
    &&& r.time_done_msc == le_u64(b, o + 32) as i64
    &&& r.time_expiration == le_u64(b, o + 40) as i64
    &&& r.type_ == le_u32(b, o + 48) as i32
    &&& r.type_time == le_u32(b, o + 52) as i32
    &&& r.type_filling == le_u32(b, o + 56) as i32
    &&& r.state == le_u32(b, o + 60) as i32
    &&& r.magic == le_u64(b, o + 64) as i64
    &&& r.position_id == le_u64(b, o + 72) as i64
    &&& r.position_by_id == le_u64(b, o + 80) as i64
    &&& r.reason == le_u32(b, o + 88) as i32
    &&& r.volume_initial == le_u64(b, o + 92)
    &&& r.volume_current == le_u64(b, o + 100)
    &&& r.price_open == le_u64(b, o + 108)
    &&& r.price_current == le_u64(b, o + 116)
    &&& r.price_sl == le_u64(b, o + 124)
    &&& r.price_tp == le_u64(b, o + 132)
    &&& r.price_stoplimit == le_u64(b, o + 140)
    &&& r.symbol@ == slot_text(b, o + 148, 64)
    &&& r.comment@ == slot_text(b, o + 212, 64)
    &&& r.external_id@ == slot_text(b, o + 276, 64)
}

/// A deal record decoded from the bytes at `b[o..]`.
pub open spec fn deal_at(d: TradeDeal, b: Seq<u8>, o: int) -> bool {
    &&& d.ticket == le_u64(b, o) as i64
    &&& d.order == le_u64(b, o + 8) as i64
    &&& d.time == le_u64(b, o + 16) as i64
    &&& d.time_msc == le_u64(b, o + 24) as i64
    &&& d.type_ == le_u32(b, o + 32) as i32
    &&& d.entry == le_u32(b, o + 36) as i32
    &&& d.magic == le_u64(b, o + 40) as i64
    &&& d.position_id == le_u64(b, o + 48) as i64
    &&& d.reason == le_u32(b, o + 56) as i32
    &&& d.volume == le_u64(b, o + 60)
    &&& d.price == le_u64(b, o + 68)
    &&& d.commission == le_u64(b, o + 76)
    &&& d.swap == le_u64(b, o + 84)
    &&& d.profit == le_u64(b, o + 92)
    &&& d.fee == le_u64(b, o + 100)
    &&& d.symbol@ == slot_text(b, o + 108, 64)
    &&& d.comment@ == slot_text(b, o + 172, 64)
    &&& d.external_id@ == slot_text(b, o + 236, 64)
}

/// A bar record decoded from the bytes at `b[o..]`.
pub open spec fn rate_at(r: Rate, b: Seq<u8>, o: int) -> bool {
    &&& r.time == le_u64(b, o) as i64
    &&& r.open == le_u64(b, o + 8)
    &&& r.high == le_u64(b, o + 16)
    &&& r.low == le_u64(b, o + 24)
    &&& r.close == le_u64(b, o + 32)
    &&& r.tick_volume == le_u64(b, o + 40)
    &&& r.spread == le_u32(b, o + 48) as i32
    &&& r.real_volume == le_u64(b, o + 52)
}

/// A tick record decoded from the bytes at `b[o..]`.
pub open spec fn tick_at(t: Tick, b: Seq<u8>, o: int) -> bool {
    &&& t.time == le_u64(b, o) as i64
    &&& t.bid == le_u64(b, o + 8)
    &&& t.ask == le_u64(b, o + 16)
    &&& t.last == le_u64(b, o + 24)
    &&& t.volume == le_u64(b, o + 32)
    &&& t.time_msc == le_u64(b, o + 40) as i64
    &&& t.flags == le_u32(b, o + 48)
    &&& t.volume_real == le_u64(b, o + 52)
}

/// A market-depth level decoded from the bytes at `b[o..]`.
pub open spec fn book_at(k: BookInfo, b: Seq<u8>, o: int) -> bool {
    &&& k.type_ == le_u64(b, o) as i64
    &&& k.price == le_u64(b, o + 8)
    &&& k.volume == le_u64(b, o + 16) as i64
    &&& k.volume_real == le_u64(b, o + 24)
}

/// A trade result decoded from the bytes at `b[o..]` (command 161's response).
pub open spec fn trade_result_at(r: TradeResult, b: Seq<u8>, o: int) -> bool {
    &&& r.retcode == le_u32(b, o) as i32
    &&& r.deal == le_u64(b, o + 4) as i64
    &&& r.order == le_u64(b, o + 12) as i64
    &&& r.volume == le_u64(b, o + 20)
    &&& r.price == le_u64(b, o + 28)
    &&& r.bid == le_u64(b, o + 36)
    &&& r.ask == le_u64(b, o + 44)
    &&& r.comment@ == slot_text(b, o + 52, 200)
    &&& r.request_id == le_u32(b, o + 252)
    &&& r.retcode_external == le_u32(b, o + 256) as i32
}

/// A trade-check result decoded from the bytes at `b[o..]` (command 160's response).
pub open spec fn check_result_at(c: TradeCheckResult, b: Seq<u8>, o: int) -> bool {
    &&& c.retcode == le_u32(b, o) as i32
    &&& c.balance == le_u64(b, o + 4)
    &&& c.equity == le_u64(b, o + 12)
    &&& c.profit == le_u64(b, o + 20)
    &&& c.margin == le_u64(b, o + 28)
    &&& c.margin_free == le_u64(b, o + 36)
    &&& c.margin_level == le_u64(b, o + 44)
    &&& c.comment@ == slot_text(b, o + 52, 200)
}

/// The terminal record decoded from `b` (command 180's response): flags and
/// numbers at fixed offsets, then six texts at fixed offsets, each running to
/// its first NUL or to the end of the response.
pub open spec fn terminal_info_of(t: TerminalInfo, b: Seq<u8>) -> bool {
    &&& t.build == le_u16(b, 0)
    &&& t.community_account == (b[2] != 0)
    &&& t.community_connection == (b[3] != 0)
    &&& t.notifications_enabled == (b[4] != 0)
    &&& t.mqid == (b[5] != 0)
    &&& t.connected == (b[6] != 0)
    &&& t.dlls_allowed == (b[7] != 0)
    &&& t.trade_allowed == (b[8] != 0)
    &&& t.trade_api_disabled == (b[9] != 0)
    &&& t.email_enabled == (b[10] != 0)
    &&& t.ftp_enabled == (b[11] != 0)
    &&& t.max_bars == le_u32(b, 12)
    &&& t.code_page == le_u16(b, 17)
    &&& t.ping_last == le_u16(b, 21)
    &&& t.community_balance == le_u64(b, 24)
    &&& t.retransmission == le_u64(b, 32)
    &&& t.company@ == text_from(b, 41)
    &&& t.name@ == text_from(b, 561)
    &&& t.language@ == text_from(b, 1081)
    &&& t.path@ == text_from(b, 1601)
    &&& t.data_path@ == text_from(b, 2121)
    &&& t.common_data_path@ == text_from(b, 2641)
}

/// How many records of `rec` bytes a list response holds: the count in its
/// first four bytes, or fewer when the response ends sooner.
pub open spec fn records_in(b: Seq<u8>, rec: int) -> int {
    let fit = (b.len() - 4) / rec;
    if le_u32(b, 0) < fit {
        le_u32(b, 0)
    } else {
        fit
    }
}

} // verus!
