//! The bytes of every record, written field by field in the order the
//! terminal sends them, and the laws that each record's decoding reads such
//! bytes back to the record that was written. The image of a record is
//! stated here without offsets: each field's place follows from the fields
//! written before it.
use vstd::prelude::*;

use crate::client::{i32_bytes, i64_bytes};
use crate::codec::{
    law_fixed_string_reads_back, lemma_slot_units, slot_image, slot_text, text_from, units_at,
};
use crate::layout::{
    account_info_at, book_at, check_result_at, deal_at, order_at, position_at, rate_at,
    records_in, symbol_info_at, terminal_info_of, tick_at, trade_result_at, ACCOUNT_INFO_LEN,
    BOOK_LEN, CHECK_RESULT_LEN, DEAL_LEN, ORDER_LEN, POSITION_LEN, RATE_LEN, SYMBOL_INFO_LEN,
    TICK_LEN, TRADE_RESULT_LEN,
};
use crate::text::{
    has_no_nul, lemma_until_nul_at, lemma_utf16_no_nul, lemma_utf16_roundtrip, utf16_encode,
};
use crate::types::{
    AccountInfo, BookInfo, Rate, SymbolInfo, TerminalInfo, Tick, TradeCheckResult, TradeDeal,
    TradeOrder, TradePosition, TradeResult,
};
use crate::wire::{
    le_u16, le_u32, le_u64, lemma_u32_roundtrip, lemma_u64_roundtrip, u32_le_bytes, u64_le_bytes,
};

verus! {

/// The eight little-endian bytes of a 64-bit field.
#[verifier::opaque]
pub open spec fn field_u64(v: int) -> Seq<u8> {
    u64_le_bytes(v)
}

/// The four little-endian bytes of a 32-bit field.
#[verifier::opaque]
pub open spec fn field_u32(v: int) -> Seq<u8> {
    u32_le_bytes(v)
}

/// The eight bytes of a signed 64-bit field: its two's-complement bits.
#[verifier::opaque]
pub open spec fn field_i64(v: i64) -> Seq<u8> {
    i64_bytes(v)
}

/// The four bytes of a signed 32-bit field: its two's-complement bits.
#[verifier::opaque]
pub open spec fn field_i32(v: i32) -> Seq<u8> {
    i32_bytes(v)
}

/// The byte of a flag: 1 for true, 0 for false.
#[verifier::opaque]
pub open spec fn field_flag(f: bool) -> Seq<u8> {
    seq![if f { 1u8 } else { 0u8 }]
}

/// A text in a fixed slot of `width` bytes: its UTF-16 units little-endian, then zero bytes.
#[verifier::opaque]
pub open spec fn field_text(s: Seq<char>, width: int) -> Seq<u8> {
    slot_image(utf16_encode(s), width)
}

/// A 64-bit field takes eight bytes.
pub broadcast proof fn lemma_field_u64_len(v: int)
    ensures
        #[trigger] field_u64(v).len() == 8,
{
    reveal(field_u64);
}

/// A 32-bit field takes four bytes.
pub broadcast proof fn lemma_field_u32_len(v: int)
    ensures
        #[trigger] field_u32(v).len() == 4,
{
    reveal(field_u32);
}

/// A signed 64-bit field takes eight bytes.
pub broadcast proof fn lemma_field_i64_len(v: i64)
    ensures
        #[trigger] field_i64(v).len() == 8,
{
    reveal(field_i64);
}

/// A signed 32-bit field takes four bytes.
pub broadcast proof fn lemma_field_i32_len(v: i32)
    ensures
        #[trigger] field_i32(v).len() == 4,
{
    reveal(field_i32);
}

/// A flag takes one byte.
pub broadcast proof fn lemma_field_flag_len(f: bool)
    ensures
        #[trigger] field_flag(f).len() == 1,
{
    reveal(field_flag);
}

/// A text slot takes its width.
pub broadcast proof fn lemma_field_text_len(s: Seq<char>, width: int)
    requires
        width >= 0,
    ensures
        #[trigger] field_text(s, width).len() == width,
{
    reveal(field_text);
}

/// The lengths of the fields a record is written with.
pub broadcast group group_field_lens {
    lemma_field_u64_len,
    lemma_field_u32_len,
    lemma_field_i64_len,
    lemma_field_i32_len,
    lemma_field_flag_len,
    lemma_field_text_len,
    lemma_field_u16_len,
    lemma_field_pad_len,
}

/// Whether a text fits a slot of `width` bytes and reads back whole: it holds no NUL and leaves
/// room for the terminating one.
pub open spec fn fits_slot(s: Seq<char>, width: int) -> bool {
    has_no_nul(s) && utf16_encode(s).len() < width / 2
}

/// Whether the bytes of `a` stand in `b` from offset `o` on.
#[verifier::opaque]
pub open spec fn agrees_at(a: Seq<u8>, b: Seq<u8>, o: int) -> bool {
    &&& 0 <= o
    &&& o + a.len() <= b.len()
    &&& forall|t: int| 0 <= t < a.len() ==> b[o + t] == #[trigger] a[t]
}

/// Bytes written between a prefix and a suffix stand after the prefix.
proof fn lemma_window(a: Seq<u8>, pre: Seq<u8>, post: Seq<u8>)
    ensures
        agrees_at(a, pre + a + post, pre.len() as int),
{
    reveal(agrees_at);
    let b = pre + a + post;
    let n = pre.len() as int;
    assert forall|t: int| 0 <= t < a.len() implies b[n + t] == #[trigger] a[t] by {
        assert((pre + a)[n + t] == a[t]);
    }
}

/// What agrees with the whole agrees with its first part.
proof fn lemma_agrees_front(c: Seq<u8>, p: Seq<u8>, b: Seq<u8>, o: int)
    requires
        agrees_at(c + p, b, o),
    ensures
        agrees_at(c, b, o),
{
    reveal(agrees_at);
    assert forall|t: int| 0 <= t < c.len() implies b[o + t] == #[trigger] c[t] by {
        assert((c + p)[t] == c[t]);
    }
}

/// The bytes `c + p` standing at `b[o..]` put the bytes of `p` at `b[o + c.len()..]`.
proof fn lemma_agrees_back(c: Seq<u8>, p: Seq<u8>, b: Seq<u8>, o: int, j: int)
    requires
        agrees_at(c + p, b, o),
        0 <= j < p.len(),
    ensures
        b[o + c.len() + j] == p[j],
        o + c.len() + p.len() <= b.len(),
{
    reveal(agrees_at);
    assert((c + p)[c.len() + j] == p[j]);
}

/// A 64-bit field written after `c` is read at its offset.
proof fn lemma_u64_field(c: Seq<u8>, v: int, b: Seq<u8>, o: int)
    requires
        0 <= v < 0x1_0000_0000_0000_0000,
        agrees_at(c + field_u64(v), b, o),
    ensures
        le_u64(b, o + c.len()) == v,
        agrees_at(c, b, o),
{
    reveal(field_u64);
    let p = u64_le_bytes(v);
    lemma_u64_roundtrip(v);
    lemma_agrees_front(c, p, b, o);
    let i = o + c.len();
    lemma_agrees_back(c, p, b, o, 0);
    lemma_agrees_back(c, p, b, o, 1);
    lemma_agrees_back(c, p, b, o, 2);
    lemma_agrees_back(c, p, b, o, 3);
    lemma_agrees_back(c, p, b, o, 4);
    lemma_agrees_back(c, p, b, o, 5);
    lemma_agrees_back(c, p, b, o, 6);
    lemma_agrees_back(c, p, b, o, 7);
    assert(le_u32(b, i) == le_u32(p, 0));
    assert(le_u32(b, i + 4) == le_u32(p, 4));
}

/// A 32-bit field written after `c` is read at its offset.
proof fn lemma_u32_field(c: Seq<u8>, v: int, b: Seq<u8>, o: int)
    requires
        0 <= v < 0x1_0000_0000,
        agrees_at(c + field_u32(v), b, o),
    ensures
        le_u32(b, o + c.len()) == v,
        agrees_at(c, b, o),
{
    reveal(field_u32);
    let p = u32_le_bytes(v);
    lemma_u32_roundtrip(v);
    lemma_agrees_front(c, p, b, o);
    lemma_agrees_back(c, p, b, o, 0);
    lemma_agrees_back(c, p, b, o, 1);
    lemma_agrees_back(c, p, b, o, 2);
    lemma_agrees_back(c, p, b, o, 3);
}

/// A signed 64-bit field written after `c` is read at its offset.
proof fn lemma_i64_field(c: Seq<u8>, v: i64, b: Seq<u8>, o: int)
    requires
        agrees_at(c + field_i64(v), b, o),
    ensures
        le_u64(b, o + c.len()) as i64 == v,
        agrees_at(c, b, o),
{
    assert(field_i64(v) == field_u64((v as u64) as int)) by {
        reveal(field_i64);
        reveal(field_u64);
    }
    lemma_u64_field(c, (v as u64) as int, b, o);
    assert(((v as u64) as i64) == v) by (bit_vector);
}

/// A signed 32-bit field written after `c` is read at its offset.
proof fn lemma_i32_field(c: Seq<u8>, v: i32, b: Seq<u8>, o: int)
    requires
        agrees_at(c + field_i32(v), b, o),
    ensures
        le_u32(b, o + c.len()) as i32 == v,
        agrees_at(c, b, o),
{
    assert(field_i32(v) == field_u32((v as u32) as int)) by {
        reveal(field_i32);
        reveal(field_u32);
    }
    lemma_u32_field(c, (v as u32) as int, b, o);
    assert(((v as u32) as i32) == v) by (bit_vector);
}

/// A flag written after `c` is read at its offset.
proof fn lemma_flag_field(c: Seq<u8>, v: bool, b: Seq<u8>, o: int)
    requires
        agrees_at(c + field_flag(v), b, o),
    ensures
        (b[o + c.len()] != 0) == v,
        agrees_at(c, b, o),
{
    reveal(field_flag);
    lemma_agrees_front(c, field_flag(v), b, o);
    lemma_agrees_back(c, field_flag(v), b, o, 0);
}

/// A text that fits its slot, written after `c`, is read from its slot.
proof fn lemma_text_field(c: Seq<u8>, s: Seq<char>, width: int, b: Seq<u8>, o: int)
    requires
        width > 0,
        width % 2 == 0,
        fits_slot(s, width),
        agrees_at(c + field_text(s, width), b, o),
    ensures
        slot_text(b, o + c.len(), width) == s,
        agrees_at(c, b, o),
{
    reveal(field_text);
    let p = slot_image(utf16_encode(s), width);
    lemma_agrees_front(c, p, b, o);
    law_fixed_string_reads_back(c, s, width);
    let i = o + c.len();
    let n = c.len() as int;
    assert forall|k: int| 0 <= k < width / 2 implies #[trigger] units_at(b, i, width / 2)[k]
        == units_at(c + p, n, width / 2)[k] by {
        lemma_agrees_back(c, p, b, o, 2 * k);
        lemma_agrees_back(c, p, b, o, 2 * k + 1);
        assert((c + p)[n + 2 * k] == p[2 * k]);
        assert((c + p)[n + 2 * k + 1] == p[2 * k + 1]);
    }
    assert(units_at(b, i, width / 2) =~= units_at(c + p, n, width / 2));
}

/// What agrees with a part of `a` still agrees once more bytes follow `a`.
proof fn lemma_agrees_extend(x: Seq<u8>, a: Seq<u8>, z: Seq<u8>, o: int)
    requires
        agrees_at(x, a, o),
    ensures
        agrees_at(x, a + z, o),
{
    reveal(agrees_at);
    assert forall|t: int| 0 <= t < x.len() implies (a + z)[o + t] == #[trigger] x[t] by {
        assert((a + z)[o + t] == a[o + t]);
    }
}

/// What agrees with a part of `a` agrees with the same part after a prefix.
proof fn lemma_agrees_shift(x: Seq<u8>, p: Seq<u8>, a: Seq<u8>, o: int)
    requires
        agrees_at(x, a, o),
    ensures
        agrees_at(x, p + a, p.len() + o),
{
    reveal(agrees_at);
    assert forall|t: int| 0 <= t < x.len() implies (p + a)[p.len() + o + t] == #[trigger] x[t] by {
        assert((p + a)[p.len() + o + t] == a[o + t]);
    }
}

/// Bytes that hold `a` at `o` are the bytes before it, `a`, and the bytes after it.
proof fn lemma_split_at(a: Seq<u8>, b: Seq<u8>, o: int)
    requires
        agrees_at(a, b, o),
    ensures
        b == b.take(o) + a + b.skip(o + a.len()),
{
    reveal(agrees_at);
    let c = b.take(o) + a + b.skip(o + a.len());
    assert forall|t: int| 0 <= t < b.len() implies #[trigger] c[t] == b[t] by {
        if t < o {
        } else if t < o + a.len() {
            assert(b[o + (t - o)] == a[t - o]);
        } else {
        }
    }
    assert(c =~= b);
}

/// The images of the records of `rs`, written one after another.
pub open spec fn images<T>(rs: Seq<T>, image: spec_fn(T) -> Seq<u8>) -> Seq<u8>
    decreases rs.len(),
{
    if rs.len() == 0 {
        Seq::empty()
    } else {
        images(rs.drop_last(), image) + image(rs.last())
    }
}

/// A list response: a count in four bytes, then the image of each record of `rs` in turn.
pub open spec fn list_response<T>(count: int, rs: Seq<T>, image: spec_fn(T) -> Seq<u8>) -> Seq<
    u8,
> {
    field_u32(count) + images(rs, image)
}

/// Images of `len` bytes each take `len` bytes per record.
proof fn lemma_images_len<T>(rs: Seq<T>, image: spec_fn(T) -> Seq<u8>, len: int)
    requires
        len >= 0,
        forall|t: T| #[trigger] image(t).len() == len,
    ensures
        images(rs, image).len() == rs.len() * len,
    decreases rs.len(),
{
    if rs.len() > 0 {
        lemma_images_len(rs.drop_last(), image, len);
        assert((rs.len() - 1) * len + len == rs.len() * len) by (nonlinear_arith);
    }
}

/// With images of `len` bytes each, the image of `rs[j]` stands at `j * len`.
proof fn lemma_images_at<T>(rs: Seq<T>, image: spec_fn(T) -> Seq<u8>, len: int, j: int)
    requires
        len >= 0,
        forall|t: T| #[trigger] image(t).len() == len,
        0 <= j < rs.len(),
    ensures
        agrees_at(image(rs[j]), images(rs, image), j * len),
    decreases rs.len(),
{
    let front = rs.drop_last();
    lemma_images_len(front, image, len);
    if j == rs.len() - 1 {
        lemma_window(image(rs[j]), images(front, image), Seq::empty());
        assert(images(front, image) + image(rs[j]) + Seq::empty() =~= images(rs, image));
    } else {
        lemma_images_at(front, image, len, j);
        assert(front[j] == rs[j]);
        lemma_agrees_extend(image(rs[j]), images(front, image), image(rs.last()), j * len);
    }
}

/// A list response with a count of `count`, the records `rs` and the bytes `post` after them states
/// its count and holds the image of each `rs[j]` at `4 + j * len`.
proof fn lemma_list_response<T>(
    count: int,
    rs: Seq<T>,
    image: spec_fn(T) -> Seq<u8>,
    len: int,
    post: Seq<u8>,
)
    requires
        len > 0,
        0 <= count < 0x1_0000_0000,
        forall|t: T| #[trigger] image(t).len() == len,
    ensures
        (list_response(count, rs, image) + post).len() == 4 + rs.len() * len + post.len(),
        le_u32(list_response(count, rs, image) + post, 0) == count,
        forall|j: int|
            0 <= j < rs.len() ==> agrees_at(
                #[trigger] image(rs[j]),
                list_response(count, rs, image) + post,
                4 + j * len,
            ),
{
    broadcast use group_field_lens;

    let all = images(rs, image);
    let head = list_response(count, rs, image);
    let data = head + post;
    lemma_images_len(rs, image, len);
    lemma_window(head, Seq::empty(), post);
    assert(Seq::<u8>::empty() + head + post =~= data);
    assert(Seq::<u8>::empty() + field_u32(count) =~= field_u32(count));
    lemma_agrees_front(field_u32(count), all, data, 0);
    lemma_u32_field(Seq::empty(), count, data, 0);
    assert forall|j: int| 0 <= j < rs.len() implies agrees_at(
        #[trigger] image(rs[j]),
        data,
        4 + j * len,
    ) by {
        lemma_images_at(rs, image, len, j);
        lemma_agrees_shift(image(rs[j]), field_u32(count), all, j * len);
        lemma_agrees_extend(image(rs[j]), head, post, 4 + j * len);
    }
}

/// A list response whose count is at most the `n` whole records it holds, or whose bytes after
/// those records are fewer than a record, yields the smaller of its count and `n`.
proof fn lemma_records_in_list(b: Seq<u8>, count: int, n: int, len: int, rest: int)
    requires
        len > 0,
        n >= 0,
        rest >= 0,
        b.len() == 4 + n * len + rest,
        le_u32(b, 0) == count,
        count <= n || rest < len,
    ensures
        records_in(b, len) == if count <= n {
            count
        } else {
            n
        },
{
    vstd::arithmetic::div_mod::lemma_div_multiples_vanish(n, len);
    assert(b.len() - 4 == len * n + rest) by (nonlinear_arith)
        requires
            b.len() == 4 + n * len + rest,
    ;
    vstd::arithmetic::div_mod::lemma_div_is_ordered(len * n, len * n + rest, len);
    if rest < len {
        vstd::arithmetic::div_mod::lemma_div_multiples_vanish_fancy(n, rest, len);
    }
}

/// The two little-endian bytes of a 16-bit field.
#[verifier::opaque]
pub open spec fn field_u16(v: int) -> Seq<u8> {
    seq![(v % 256) as u8, (v / 256) as u8]
}

/// Padding of `n` zero bytes between fields.
#[verifier::opaque]
pub open spec fn field_pad(n: nat) -> Seq<u8> {
    Seq::new(n, |i: int| 0u8)
}

/// A 16-bit field takes two bytes.
pub broadcast proof fn lemma_field_u16_len(v: int)
    ensures
        #[trigger] field_u16(v).len() == 2,
{
    reveal(field_u16);
}

/// Padding takes its width.
pub broadcast proof fn lemma_field_pad_len(n: nat)
    ensures
        #[trigger] field_pad(n).len() == n,
{
    reveal(field_pad);
}

/// A 16-bit field written after `c` is read at its offset.
proof fn lemma_u16_field(c: Seq<u8>, v: int, b: Seq<u8>, o: int)
    requires
        0 <= v < 0x1_0000,
        agrees_at(c + field_u16(v), b, o),
    ensures
        le_u16(b, o + c.len()) == v,
        agrees_at(c, b, o),
{
    reveal(field_u16);
    let p = field_u16(v);
    lemma_agrees_front(c, p, b, o);
    lemma_agrees_back(c, p, b, o, 0);
    lemma_agrees_back(c, p, b, o, 1);
    assert(v % 256 + 256 * (v / 256) == v);
}

/// A text that fits its slot, written after `c`, is read by the text that runs from its offset to
/// the first NUL or to the end of the bytes.
proof fn lemma_text_from_field(c: Seq<u8>, s: Seq<char>, width: int, b: Seq<u8>, o: int)
    requires
        width > 0,
        width % 2 == 0,
        fits_slot(s, width),
        agrees_at(c + field_text(s, width), b, o),
    ensures
        text_from(b, o + c.len()) == s,
        agrees_at(c, b, o),
{
    reveal(field_text);
    let u = utf16_encode(s);
    let p = slot_image(u, width);
    lemma_agrees_front(c, p, b, o);
    lemma_agrees_back(c, p, b, o, 0);
    let i = o + c.len();
    let n = c.len() as int;
    let all = units_at(b, i, (b.len() - i) / 2);
    let mine = units_at(c + p, n, width / 2);
    assert forall|k: int| 0 <= k < width / 2 implies #[trigger] all[k] == mine[k] by {
        lemma_agrees_back(c, p, b, o, 2 * k);
        lemma_agrees_back(c, p, b, o, 2 * k + 1);
        assert((c + p)[n + 2 * k] == p[2 * k]);
        assert((c + p)[n + 2 * k + 1] == p[2 * k + 1]);
    }
    lemma_utf16_no_nul(s);
    assert forall|k: int| 0 <= k < u.len() implies all[k] != 0 && #[trigger] all[k] == u[k] by {
        lemma_slot_units(c, u, width, k);
    }
    lemma_slot_units(c, u, width, u.len() as int);
    lemma_until_nul_at(all, u.len() as int);
    assert(all.take(u.len() as int) =~= u);
    lemma_utf16_roundtrip(s);
}

/// An account record written field by field, in the order the terminal sends it: login, trade mode,
/// leverage, limit orders, margin so mode, trade allowed, trade expert, margin mode, currency
/// digits, fifo close, balance, credit, profit, equity, margin, free margin, margin level, margin
/// so call, margin so so, margin initial, margin maintenance, assets, liabilities, commission
/// blocked, name, server, currency, company.
#[verifier::opaque]
pub open spec fn account_info_image(a: AccountInfo) -> Seq<u8> {
    field_i64(a.login)
        + field_i32(a.trade_mode as i32)
        + field_i32(a.leverage as i32)
        + field_i32(a.limit_orders as i32)
        + field_i32(a.margin_so_mode as i32)
        + field_flag(a.trade_allowed)
        + field_flag(a.trade_expert)
        + field_i32(a.margin_mode as i32)
        + field_i32(a.currency_digits as i32)
        + field_flag(a.fifo_close)
        + field_u64(a.balance as int)
        + field_u64(a.credit as int)
        + field_u64(a.profit as int)
        + field_u64(a.equity as int)
        + field_u64(a.margin as int)
        + field_u64(a.free_margin as int)
        + field_u64(a.margin_level as int)
        + field_u64(a.margin_so_call as int)
        + field_u64(a.margin_so_so as int)
        + field_u64(a.margin_initial as int)
        + field_u64(a.margin_maintenance as int)
        + field_u64(a.assets as int)
        + field_u64(a.liabilities as int)
        + field_u64(a.commission_blocked as int)
        + field_text(a.name@, 256)
        + field_text(a.server@, 128)
        + field_text(a.currency@, 64)
        + field_text(a.company@, 256)
}

/// Whether every field of an account record fits its place on the wire: the counts and codes sent
/// in four bytes are within their range and the texts fit their slots.
pub open spec fn account_info_fits(a: AccountInfo) -> bool {
    &&& i32::MIN <= a.trade_mode <= i32::MAX
    &&& i32::MIN <= a.leverage <= i32::MAX
    &&& i32::MIN <= a.limit_orders <= i32::MAX
    &&& i32::MIN <= a.margin_so_mode <= i32::MAX
    &&& i32::MIN <= a.margin_mode <= i32::MAX
    &&& i32::MIN <= a.currency_digits <= i32::MAX
    &&& fits_slot(a.name@, 256)
    &&& fits_slot(a.server@, 128)
    &&& fits_slot(a.currency@, 64)
    &&& fits_slot(a.company@, 256)
}

/// An account record written field by field, with any bytes before and after it, is decoded back to
/// the same record: each field is read from the offset its predecessors put it at.
#[verifier::rlimit(30)]
#[verifier::spinoff_prover]
pub proof fn law_account_info_round_trip(
    a: AccountInfo,
    x: AccountInfo,
    pre: Seq<u8>,
    post: Seq<u8>,
)
    requires
        account_info_fits(a),
        account_info_at(x, pre + account_info_image(a) + post, pre.len() as int),
    ensures
        x.login == a.login,
        x.trade_mode == a.trade_mode,
        x.leverage == a.leverage,
        x.limit_orders == a.limit_orders,
        x.margin_so_mode == a.margin_so_mode,
        x.trade_allowed == a.trade_allowed,
        x.trade_expert == a.trade_expert,
        x.margin_mode == a.margin_mode,
        x.currency_digits == a.currency_digits,
        x.fifo_close == a.fifo_close,
        x.balance == a.balance,
        x.credit == a.credit,
        x.profit == a.profit,
        x.equity == a.equity,
        x.margin == a.margin,
        x.free_margin == a.free_margin,
        x.margin_level == a.margin_level,
        x.margin_so_call == a.margin_so_call,
        x.margin_so_so == a.margin_so_so,
        x.margin_initial == a.margin_initial,
        x.margin_maintenance == a.margin_maintenance,
        x.assets == a.assets,
        x.liabilities == a.liabilities,
        x.commission_blocked == a.commission_blocked,
        x.name@ == a.name@,
        x.server@ == a.server@,
        x.currency@ == a.currency@,
        x.company@ == a.company@,
{
    broadcast use group_field_lens;

    let b = pre + account_info_image(a) + post;
    let o = pre.len() as int;
    let g0 = Seq::<u8>::empty();
    let g1 = field_i64(a.login) + field_i32(a.trade_mode as i32) + field_i32(a.leverage as i32)
        + field_i32(a.limit_orders as i32) + field_i32(a.margin_so_mode as i32)
        + field_flag(a.trade_allowed) + field_flag(a.trade_expert) + field_i32(a.margin_mode as i32)
        + field_i32(a.currency_digits as i32) + field_flag(a.fifo_close)
        + field_u64(a.balance as int) + field_u64(a.credit as int) + field_u64(a.profit as int)
        + field_u64(a.equity as int);
    let g2 = g1 + field_u64(a.margin as int) + field_u64(a.free_margin as int)
        + field_u64(a.margin_level as int) + field_u64(a.margin_so_call as int)
        + field_u64(a.margin_so_so as int) + field_u64(a.margin_initial as int)
        + field_u64(a.margin_maintenance as int) + field_u64(a.assets as int)
        + field_u64(a.liabilities as int) + field_u64(a.commission_blocked as int)
        + field_text(a.name@, 256) + field_text(a.server@, 128) + field_text(a.currency@, 64)
        + field_text(a.company@, 256);
    lemma_window(account_info_image(a), pre, post);
    assert(account_info_image(a) == g2) by {
        reveal(account_info_image);
    }
    lemma_account_info_part_2(a, g1, b, o);
    assert(g0 + field_i64(a.login) =~= field_i64(a.login));
    lemma_account_info_part_1(a, g0, b, o);
}

/// The fields login, trade mode, leverage, limit orders, margin so mode, trade allowed, trade
/// expert, margin mode, currency digits, fifo close, balance, credit, profit, equity of an account
/// record, written after the `c` bytes before them, are read at their offsets.
proof fn lemma_account_info_part_1(a: AccountInfo, c: Seq<u8>, b: Seq<u8>, o: int)
    requires
        account_info_fits(a),
        c.len() == 0,
        agrees_at(c + field_i64(a.login) + field_i32(a.trade_mode as i32)
            + field_i32(a.leverage as i32) + field_i32(a.limit_orders as i32)
            + field_i32(a.margin_so_mode as i32) + field_flag(a.trade_allowed)
            + field_flag(a.trade_expert) + field_i32(a.margin_mode as i32)
            + field_i32(a.currency_digits as i32) + field_flag(a.fifo_close)
            + field_u64(a.balance as int) + field_u64(a.credit as int) + field_u64(a.profit as int)
            + field_u64(a.equity as int), b, o),
    ensures
        agrees_at(c, b, o),
        le_u64(b, o) as i64 == a.login,
        le_u32(b, o + 8) as i32 == a.trade_mode,
        le_u32(b, o + 12) as i32 == a.leverage,
        le_u32(b, o + 16) as i32 == a.limit_orders,
        le_u32(b, o + 20) as i32 == a.margin_so_mode,
        (b[o + 24] != 0) == a.trade_allowed,
        (b[o + 25] != 0) == a.trade_expert,
        le_u32(b, o + 26) as i32 == a.margin_mode,
        le_u32(b, o + 30) as i32 == a.currency_digits,
        (b[o + 34] != 0) == a.fifo_close,
        le_u64(b, o + 35) == a.balance,
        le_u64(b, o + 43) == a.credit,
        le_u64(b, o + 51) == a.profit,
        le_u64(b, o + 59) == a.equity,
{
    broadcast use group_field_lens;

    let q1 = c + field_i64(a.login);
    let q2 = q1 + field_i32(a.trade_mode as i32);
    let q3 = q2 + field_i32(a.leverage as i32);
    let q4 = q3 + field_i32(a.limit_orders as i32);
    let q5 = q4 + field_i32(a.margin_so_mode as i32);
    let q6 = q5 + field_flag(a.trade_allowed);
    let q7 = q6 + field_flag(a.trade_expert);
    let q8 = q7 + field_i32(a.margin_mode as i32);
    let q9 = q8 + field_i32(a.currency_digits as i32);
    let q10 = q9 + field_flag(a.fifo_close);
    let q11 = q10 + field_u64(a.balance as int);
    let q12 = q11 + field_u64(a.credit as int);
    let q13 = q12 + field_u64(a.profit as int);
    lemma_u64_field(q13, a.equity as int, b, o);
    lemma_u64_field(q12, a.profit as int, b, o);
    lemma_u64_field(q11, a.credit as int, b, o);
    lemma_u64_field(q10, a.balance as int, b, o);
    lemma_flag_field(q9, a.fifo_close, b, o);
    lemma_i32_field(q8, a.currency_digits as i32, b, o);
    lemma_i32_field(q7, a.margin_mode as i32, b, o);
    lemma_flag_field(q6, a.trade_expert, b, o);
    lemma_flag_field(q5, a.trade_allowed, b, o);
    lemma_i32_field(q4, a.margin_so_mode as i32, b, o);
    lemma_i32_field(q3, a.limit_orders as i32, b, o);
    lemma_i32_field(q2, a.leverage as i32, b, o);
    lemma_i32_field(q1, a.trade_mode as i32, b, o);
    lemma_i64_field(c, a.login, b, o);
}

/// The fields margin, free margin, margin level, margin so call, margin so so, margin initial,
/// margin maintenance, assets, liabilities, commission blocked, name, server, currency, company of
/// an account record, written after the `c` bytes before them, are read at their offsets.
proof fn lemma_account_info_part_2(a: AccountInfo, c: Seq<u8>, b: Seq<u8>, o: int)
    requires
        account_info_fits(a),
        c.len() == 67,
        agrees_at(c + field_u64(a.margin as int) + field_u64(a.free_margin as int)
            + field_u64(a.margin_level as int) + field_u64(a.margin_so_call as int)
            + field_u64(a.margin_so_so as int) + field_u64(a.margin_initial as int)
            + field_u64(a.margin_maintenance as int) + field_u64(a.assets as int)
            + field_u64(a.liabilities as int) + field_u64(a.commission_blocked as int)
            + field_text(a.name@, 256) + field_text(a.server@, 128) + field_text(a.currency@, 64)
            + field_text(a.company@, 256), b, o),
    ensures
        agrees_at(c, b, o),
        le_u64(b, o + 67) == a.margin,
        le_u64(b, o + 75) == a.free_margin,
        le_u64(b, o + 83) == a.margin_level,
        le_u64(b, o + 91) == a.margin_so_call,
        le_u64(b, o + 99) == a.margin_so_so,
        le_u64(b, o + 107) == a.margin_initial,
        le_u64(b, o + 115) == a.margin_maintenance,
        le_u64(b, o + 123) == a.assets,
        le_u64(b, o + 131) == a.liabilities,
        le_u64(b, o + 139) == a.commission_blocked,
        slot_text(b, o + 147, 256) == a.name@,
        slot_text(b, o + 403, 128) == a.server@,
        slot_text(b, o + 531, 64) == a.currency@,
        slot_text(b, o + 595, 256) == a.company@,
{
    broadcast use group_field_lens;

    let q1 = c + field_u64(a.margin as int);
    let q2 = q1 + field_u64(a.free_margin as int);
    let q3 = q2 + field_u64(a.margin_level as int);
    let q4 = q3 + field_u64(a.margin_so_call as int);
    let q5 = q4 + field_u64(a.margin_so_so as int);
    let q6 = q5 + field_u64(a.margin_initial as int);
    let q7 = q6 + field_u64(a.margin_maintenance as int);
    let q8 = q7 + field_u64(a.assets as int);
    let q9 = q8 + field_u64(a.liabilities as int);
    let q10 = q9 + field_u64(a.commission_blocked as int);
    let q11 = q10 + field_text(a.name@, 256);
    let q12 = q11 + field_text(a.server@, 128);
    let q13 = q12 + field_text(a.currency@, 64);
    lemma_text_field(q13, a.company@, 256, b, o);
    lemma_text_field(q12, a.currency@, 64, b, o);
    lemma_text_field(q11, a.server@, 128, b, o);
    lemma_text_field(q10, a.name@, 256, b, o);
    lemma_u64_field(q9, a.commission_blocked as int, b, o);
    lemma_u64_field(q8, a.liabilities as int, b, o);
    lemma_u64_field(q7, a.assets as int, b, o);
    lemma_u64_field(q6, a.margin_maintenance as int, b, o);
    lemma_u64_field(q5, a.margin_initial as int, b, o);
    lemma_u64_field(q4, a.margin_so_so as int, b, o);
    lemma_u64_field(q3, a.margin_so_call as int, b, o);
    lemma_u64_field(q2, a.margin_level as int, b, o);
    lemma_u64_field(q1, a.free_margin as int, b, o);
    lemma_u64_field(c, a.margin as int, b, o);
}

/// The image of an account record takes the record's size.
pub proof fn lemma_account_info_image_len(a: AccountInfo)
    ensures
        account_info_image(a).len() == ACCOUNT_INFO_LEN,
{
    broadcast use group_field_lens;

    let g1 = field_i64(a.login) + field_i32(a.trade_mode as i32) + field_i32(a.leverage as i32)
        + field_i32(a.limit_orders as i32) + field_i32(a.margin_so_mode as i32)
        + field_flag(a.trade_allowed) + field_flag(a.trade_expert) + field_i32(a.margin_mode as i32)
        + field_i32(a.currency_digits as i32) + field_flag(a.fifo_close)
        + field_u64(a.balance as int) + field_u64(a.credit as int) + field_u64(a.profit as int)
        + field_u64(a.equity as int);
    assert(g1.len() == 67);
    let g2 = g1 + field_u64(a.margin as int) + field_u64(a.free_margin as int)
        + field_u64(a.margin_level as int) + field_u64(a.margin_so_call as int)
        + field_u64(a.margin_so_so as int) + field_u64(a.margin_initial as int)
        + field_u64(a.margin_maintenance as int) + field_u64(a.assets as int)
        + field_u64(a.liabilities as int) + field_u64(a.commission_blocked as int)
        + field_text(a.name@, 256) + field_text(a.server@, 128) + field_text(a.currency@, 64)
        + field_text(a.company@, 256);
    assert(g2.len() == 851);
    assert(account_info_image(a) == g2) by {
        reveal(account_info_image);
    }
}

/// Whether two values of `AccountInfo` hold the same fields, texts compared by their characters.
pub open spec fn same_account_info(a: AccountInfo, b: AccountInfo) -> bool {
    &&& a.login == b.login
    &&& a.trade_mode == b.trade_mode
    &&& a.leverage == b.leverage
    &&& a.limit_orders == b.limit_orders
    &&& a.margin_so_mode == b.margin_so_mode
    &&& a.trade_allowed == b.trade_allowed
    &&& a.trade_expert == b.trade_expert
    &&& a.margin_mode == b.margin_mode
    &&& a.currency_digits == b.currency_digits
    &&& a.fifo_close == b.fifo_close
    &&& a.balance == b.balance
    &&& a.credit == b.credit
    &&& a.profit == b.profit
    &&& a.equity == b.equity
    &&& a.margin == b.margin
    &&& a.free_margin == b.free_margin
    &&& a.margin_level == b.margin_level
    &&& a.margin_so_call == b.margin_so_call
    &&& a.margin_so_so == b.margin_so_so
    &&& a.margin_initial == b.margin_initial
    &&& a.margin_maintenance == b.margin_maintenance
    &&& a.assets == b.assets
    &&& a.liabilities == b.liabilities
    &&& a.commission_blocked == b.commission_blocked
    &&& a.name@ == b.name@
    &&& a.server@ == b.server@
    &&& a.currency@ == b.currency@
    &&& a.company@ == b.company@
}

/// A symbol record written field by field, in the order the terminal sends it: custom, chart mode,
/// select, visible, session deals, session buy orders, session sell orders, volume, volume high,
/// volume low, time, digits, spread, spread float, ticks book depth, trade calc mode, trade mode,
/// start time, expiration time, trade stops level, trade freeze level, trade exe mode, swap mode,
/// swap rollover3days, margin hedged use leg, expiration mode, filling mode, order mode, order gtc
/// mode, option mode, option right, bid, bidhigh, bidlow, ask, askhigh, asklow, last, lasthigh,
/// lastlow, volume real, volumehigh real, volumelow real, option strike, point, trade tick value,
/// trade tick value profit, trade tick value loss, trade tick size, trade contract size, trade
/// accrued interest, trade face value, trade liquidity rate, volume min, volume max, volume step,
/// volume limit, swap long, swap short, margin initial, margin maintenance, session volume, session
/// turnover, session interest, session buy orders volume, session sell orders volume, session open,
/// session close, session aw, session price settlement, session price limit min, session price
/// limit max, margin hedged, price change, price volatility, price theoretical, price greeks delta,
/// price greeks theta, price greeks gamma, price greeks vega, price greeks rho, price greeks omega,
/// price sensitivity, basis, category, currency base, currency profit, currency margin, bank,
/// description, exchange, formula, isin, page, path, name.
#[verifier::opaque]
pub open spec fn symbol_info_image(s: SymbolInfo) -> Seq<u8> {
    field_flag(s.custom)
        + field_u32(s.chart_mode as int)
        + field_flag(s.select)
        + field_flag(s.visible)
        + field_i64(s.session_deals)
        + field_i64(s.session_buy_orders)
        + field_i64(s.session_sell_orders)
        + field_i64(s.volume)
        + field_i64(s.volume_high)
        + field_i64(s.volume_low)
        + field_i64(s.time)
        + field_u32(s.digits as int)
        + field_u32(s.spread as int)
        + field_flag(s.spread_float)
        + field_u32(s.ticks_book_depth as int)
        + field_u32(s.trade_calc_mode as int)
        + field_u32(s.trade_mode as int)
        + field_i64(s.start_time)
        + field_i64(s.expiration_time)
        + field_u32(s.trade_stops_level as int)
        + field_u32(s.trade_freeze_level as int)
        + field_u32(s.trade_exe_mode as int)
        + field_u32(s.swap_mode as int)
        + field_u32(s.swap_rollover3days as int)
        + field_flag(s.margin_hedged_use_leg)
        + field_u32(s.expiration_mode as int)
        + field_u32(s.filling_mode as int)
        + field_u32(s.order_mode as int)
        + field_u32(s.order_gtc_mode as int)
        + field_u32(s.option_mode as int)
        + field_u32(s.option_right as int)
        + field_u64(s.bid as int)
        + field_u64(s.bidhigh as int)
        + field_u64(s.bidlow as int)
        + field_u64(s.ask as int)
        + field_u64(s.askhigh as int)
        + field_u64(s.asklow as int)
        + field_u64(s.last as int)
        + field_u64(s.lasthigh as int)
        + field_u64(s.lastlow as int)
        + field_u64(s.volume_real as int)
        + field_u64(s.volumehigh_real as int)
        + field_u64(s.volumelow_real as int)
        + field_u64(s.option_strike as int)
        + field_u64(s.point as int)
        + field_u64(s.trade_tick_value as int)
        + field_u64(s.trade_tick_value_profit as int)
        + field_u64(s.trade_tick_value_loss as int)
        + field_u64(s.trade_tick_size as int)
        + field_u64(s.trade_contract_size as int)
        + field_u64(s.trade_accrued_interest as int)
        + field_u64(s.trade_face_value as int)
        + field_u64(s.trade_liquidity_rate as int)
        + field_u64(s.volume_min as int)
        + field_u64(s.volume_max as int)
        + field_u64(s.volume_step as int)
        + field_u64(s.volume_limit as int)
        + field_u64(s.swap_long as int)
        + field_u64(s.swap_short as int)
        + field_u64(s.margin_initial as int)
        + field_u64(s.margin_maintenance as int)
        + field_u64(s.session_volume as int)
        + field_u64(s.session_turnover as int)
        + field_u64(s.session_interest as int)
        + field_u64(s.session_buy_orders_volume as int)
        + field_u64(s.session_sell_orders_volume as int)
        + field_u64(s.session_open as int)
        + field_u64(s.session_close as int)
        + field_u64(s.session_aw as int)
        + field_u64(s.session_price_settlement as int)
        + field_u64(s.session_price_limit_min as int)
        + field_u64(s.session_price_limit_max as int)
        + field_u64(s.margin_hedged as int)
        + field_u64(s.price_change as int)
        + field_u64(s.price_volatility as int)
        + field_u64(s.price_theoretical as int)
        + field_u64(s.price_greeks_delta as int)
        + field_u64(s.price_greeks_theta as int)
        + field_u64(s.price_greeks_gamma as int)
        + field_u64(s.price_greeks_vega as int)
        + field_u64(s.price_greeks_rho as int)
        + field_u64(s.price_greeks_omega as int)
        + field_u64(s.price_sensitivity as int)
        + field_text(s.basis@, 64)
        + field_text(s.category@, 128)
        + field_text(s.currency_base@, 32)
        + field_text(s.currency_profit@, 32)
        + field_text(s.currency_margin@, 32)
        + field_text(s.bank@, 512)
        + field_text(s.description@, 64)
        + field_text(s.exchange@, 64)
        + field_text(s.formula@, 1024)
        + field_text(s.isin@, 32)
        + field_text(s.page@, 128)
        + field_text(s.path@, 256)
        + field_text(s.name@, 64)
}

/// Whether every field of a symbol record fits its place on the wire: the counts and codes sent in
/// four bytes are within their range and the texts fit their slots.
pub open spec fn symbol_info_fits(s: SymbolInfo) -> bool {
    &&& 0 <= s.chart_mode < 0x1_0000_0000
    &&& 0 <= s.digits < 0x1_0000_0000
    &&& 0 <= s.spread < 0x1_0000_0000
    &&& 0 <= s.ticks_book_depth < 0x1_0000_0000
    &&& 0 <= s.trade_calc_mode < 0x1_0000_0000
    &&& 0 <= s.trade_mode < 0x1_0000_0000
    &&& 0 <= s.trade_stops_level < 0x1_0000_0000
    &&& 0 <= s.trade_freeze_level < 0x1_0000_0000
    &&& 0 <= s.trade_exe_mode < 0x1_0000_0000
    &&& 0 <= s.swap_mode < 0x1_0000_0000
    &&& 0 <= s.swap_rollover3days < 0x1_0000_0000
    &&& 0 <= s.expiration_mode < 0x1_0000_0000
    &&& 0 <= s.filling_mode < 0x1_0000_0000
    &&& 0 <= s.order_mode < 0x1_0000_0000
    &&& 0 <= s.order_gtc_mode < 0x1_0000_0000
    &&& 0 <= s.option_mode < 0x1_0000_0000
    &&& 0 <= s.option_right < 0x1_0000_0000
    &&& fits_slot(s.basis@, 64)
    &&& fits_slot(s.category@, 128)
    &&& fits_slot(s.currency_base@, 32)
    &&& fits_slot(s.currency_profit@, 32)
    &&& fits_slot(s.currency_margin@, 32)
    &&& fits_slot(s.bank@, 512)
    &&& fits_slot(s.description@, 64)
    &&& fits_slot(s.exchange@, 64)
    &&& fits_slot(s.formula@, 1024)
    &&& fits_slot(s.isin@, 32)
    &&& fits_slot(s.page@, 128)
    &&& fits_slot(s.path@, 256)
    &&& fits_slot(s.name@, 64)
}

/// A symbol record written field by field, with any bytes before and after it, is decoded back to
/// the same record: each field is read from the offset its predecessors put it at.
#[verifier::spinoff_prover]
pub proof fn law_symbol_info_round_trip(s: SymbolInfo, x: SymbolInfo, pre: Seq<u8>, post: Seq<u8>)
    requires
        symbol_info_fits(s),
        symbol_info_at(x, pre + symbol_info_image(s) + post, pre.len() as int),
    ensures
        x.custom == s.custom,
        x.chart_mode == s.chart_mode,
        x.select == s.select,
        x.visible == s.visible,
        x.session_deals == s.session_deals,
        x.session_buy_orders == s.session_buy_orders,
        x.session_sell_orders == s.session_sell_orders,
        x.volume == s.volume,
        x.volume_high == s.volume_high,
        x.volume_low == s.volume_low,
        x.time == s.time,
        x.digits == s.digits,
        x.spread == s.spread,
        x.spread_float == s.spread_float,
        x.ticks_book_depth == s.ticks_book_depth,
        x.trade_calc_mode == s.trade_calc_mode,
        x.trade_mode == s.trade_mode,
        x.start_time == s.start_time,
        x.expiration_time == s.expiration_time,
        x.trade_stops_level == s.trade_stops_level,
        x.trade_freeze_level == s.trade_freeze_level,
        x.trade_exe_mode == s.trade_exe_mode,
        x.swap_mode == s.swap_mode,
        x.swap_rollover3days == s.swap_rollover3days,
        x.margin_hedged_use_leg == s.margin_hedged_use_leg,
        x.expiration_mode == s.expiration_mode,
        x.filling_mode == s.filling_mode,
        x.order_mode == s.order_mode,
        x.order_gtc_mode == s.order_gtc_mode,
        x.option_mode == s.option_mode,
        x.option_right == s.option_right,
        x.bid == s.bid,
        x.bidhigh == s.bidhigh,
        x.bidlow == s.bidlow,
        x.ask == s.ask,
        x.askhigh == s.askhigh,
        x.asklow == s.asklow,
        x.last == s.last,
        x.lasthigh == s.lasthigh,
        x.lastlow == s.lastlow,
        x.volume_real == s.volume_real,
        x.volumehigh_real == s.volumehigh_real,
        x.volumelow_real == s.volumelow_real,
        x.option_strike == s.option_strike,
        x.point == s.point,
        x.trade_tick_value == s.trade_tick_value,
        x.trade_tick_value_profit == s.trade_tick_value_profit,
        x.trade_tick_value_loss == s.trade_tick_value_loss,
        x.trade_tick_size == s.trade_tick_size,
        x.trade_contract_size == s.trade_contract_size,
        x.trade_accrued_interest == s.trade_accrued_interest,
        x.trade_face_value == s.trade_face_value,
        x.trade_liquidity_rate == s.trade_liquidity_rate,
        x.volume_min == s.volume_min,
        x.volume_max == s.volume_max,
        x.volume_step == s.volume_step,
        x.volume_limit == s.volume_limit,
        x.swap_long == s.swap_long,
        x.swap_short == s.swap_short,
        x.margin_initial == s.margin_initial,
        x.margin_maintenance == s.margin_maintenance,
        x.session_volume == s.session_volume,
        x.session_turnover == s.session_turnover,
        x.session_interest == s.session_interest,
        x.session_buy_orders_volume == s.session_buy_orders_volume,
        x.session_sell_orders_volume == s.session_sell_orders_volume,
        x.session_open == s.session_open,
        x.session_close == s.session_close,
        x.session_aw == s.session_aw,
        x.session_price_settlement == s.session_price_settlement,
        x.session_price_limit_min == s.session_price_limit_min,
        x.session_price_limit_max == s.session_price_limit_max,
        x.margin_hedged == s.margin_hedged,
        x.price_change == s.price_change,
        x.price_volatility == s.price_volatility,
        x.price_theoretical == s.price_theoretical,
        x.price_greeks_delta == s.price_greeks_delta,
        x.price_greeks_theta == s.price_greeks_theta,
        x.price_greeks_gamma == s.price_greeks_gamma,
        x.price_greeks_vega == s.price_greeks_vega,
        x.price_greeks_rho == s.price_greeks_rho,
        x.price_greeks_omega == s.price_greeks_omega,
        x.price_sensitivity == s.price_sensitivity,
        x.basis@ == s.basis@,
        x.category@ == s.category@,
        x.currency_base@ == s.currency_base@,
        x.currency_profit@ == s.currency_profit@,
        x.currency_margin@ == s.currency_margin@,
        x.bank@ == s.bank@,
        x.description@ == s.description@,
        x.exchange@ == s.exchange@,
        x.formula@ == s.formula@,
        x.isin@ == s.isin@,
        x.page@ == s.page@,
        x.path@ == s.path@,
        x.name@ == s.name@,
{
    lemma_window(symbol_info_image(s), pre, post);
    lemma_symbol_info_fields(s, x, pre + symbol_info_image(s) + post, pre.len() as int);
}

/// The fields of a symbol record read from bytes that hold its image at `o` are the fields that
/// were written.
#[verifier::rlimit(60)]
#[verifier::spinoff_prover]
proof fn lemma_symbol_info_fields(s: SymbolInfo, x: SymbolInfo, b: Seq<u8>, o: int)
    requires
        symbol_info_fits(s),
        agrees_at(symbol_info_image(s), b, o),
        symbol_info_at(x, b, o),
    ensures
        x.custom == s.custom,
        x.chart_mode == s.chart_mode,
        x.select == s.select,
        x.visible == s.visible,
        x.session_deals == s.session_deals,
        x.session_buy_orders == s.session_buy_orders,
        x.session_sell_orders == s.session_sell_orders,
        x.volume == s.volume,
        x.volume_high == s.volume_high,
        x.volume_low == s.volume_low,
        x.time == s.time,
        x.digits == s.digits,
        x.spread == s.spread,
        x.spread_float == s.spread_float,
        x.ticks_book_depth == s.ticks_book_depth,
        x.trade_calc_mode == s.trade_calc_mode,
        x.trade_mode == s.trade_mode,
        x.start_time == s.start_time,
        x.expiration_time == s.expiration_time,
        x.trade_stops_level == s.trade_stops_level,
        x.trade_freeze_level == s.trade_freeze_level,
        x.trade_exe_mode == s.trade_exe_mode,
        x.swap_mode == s.swap_mode,
        x.swap_rollover3days == s.swap_rollover3days,
        x.margin_hedged_use_leg == s.margin_hedged_use_leg,
        x.expiration_mode == s.expiration_mode,
        x.filling_mode == s.filling_mode,
        x.order_mode == s.order_mode,
        x.order_gtc_mode == s.order_gtc_mode,
        x.option_mode == s.option_mode,
        x.option_right == s.option_right,
        x.bid == s.bid,
        x.bidhigh == s.bidhigh,
        x.bidlow == s.bidlow,
        x.ask == s.ask,
        x.askhigh == s.askhigh,
        x.asklow == s.asklow,
        x.last == s.last,
        x.lasthigh == s.lasthigh,
        x.lastlow == s.lastlow,
        x.volume_real == s.volume_real,
        x.volumehigh_real == s.volumehigh_real,
        x.volumelow_real == s.volumelow_real,
        x.option_strike == s.option_strike,
        x.point == s.point,
        x.trade_tick_value == s.trade_tick_value,
        x.trade_tick_value_profit == s.trade_tick_value_profit,
        x.trade_tick_value_loss == s.trade_tick_value_loss,
        x.trade_tick_size == s.trade_tick_size,
        x.trade_contract_size == s.trade_contract_size,
        x.trade_accrued_interest == s.trade_accrued_interest,
        x.trade_face_value == s.trade_face_value,
        x.trade_liquidity_rate == s.trade_liquidity_rate,
        x.volume_min == s.volume_min,
        x.volume_max == s.volume_max,
        x.volume_step == s.volume_step,
        x.volume_limit == s.volume_limit,
        x.swap_long == s.swap_long,
        x.swap_short == s.swap_short,
        x.margin_initial == s.margin_initial,
        x.margin_maintenance == s.margin_maintenance,
        x.session_volume == s.session_volume,
        x.session_turnover == s.session_turnover,
        x.session_interest == s.session_interest,
        x.session_buy_orders_volume == s.session_buy_orders_volume,
        x.session_sell_orders_volume == s.session_sell_orders_volume,
        x.session_open == s.session_open,
        x.session_close == s.session_close,
        x.session_aw == s.session_aw,
        x.session_price_settlement == s.session_price_settlement,
        x.session_price_limit_min == s.session_price_limit_min,
        x.session_price_limit_max == s.session_price_limit_max,
        x.margin_hedged == s.margin_hedged,
        x.price_change == s.price_change,
        x.price_volatility == s.price_volatility,
        x.price_theoretical == s.price_theoretical,
        x.price_greeks_delta == s.price_greeks_delta,
        x.price_greeks_theta == s.price_greeks_theta,
        x.price_greeks_gamma == s.price_greeks_gamma,
        x.price_greeks_vega == s.price_greeks_vega,
        x.price_greeks_rho == s.price_greeks_rho,
        x.price_greeks_omega == s.price_greeks_omega,
        x.price_sensitivity == s.price_sensitivity,
        x.basis@ == s.basis@,
        x.category@ == s.category@,
        x.currency_base@ == s.currency_base@,
        x.currency_profit@ == s.currency_profit@,
        x.currency_margin@ == s.currency_margin@,
        x.bank@ == s.bank@,
        x.description@ == s.description@,
        x.exchange@ == s.exchange@,
        x.formula@ == s.formula@,
        x.isin@ == s.isin@,
        x.page@ == s.page@,
        x.path@ == s.path@,
        x.name@ == s.name@,
{
    broadcast use group_field_lens;

    let g0 = Seq::<u8>::empty();
    let g1 = field_flag(s.custom) + field_u32(s.chart_mode as int) + field_flag(s.select)
        + field_flag(s.visible) + field_i64(s.session_deals) + field_i64(s.session_buy_orders)
        + field_i64(s.session_sell_orders) + field_i64(s.volume) + field_i64(s.volume_high)
        + field_i64(s.volume_low) + field_i64(s.time) + field_u32(s.digits as int)
        + field_u32(s.spread as int) + field_flag(s.spread_float);
    let g2 = g1 + field_u32(s.ticks_book_depth as int) + field_u32(s.trade_calc_mode as int)
        + field_u32(s.trade_mode as int) + field_i64(s.start_time) + field_i64(s.expiration_time)
        + field_u32(s.trade_stops_level as int) + field_u32(s.trade_freeze_level as int)
        + field_u32(s.trade_exe_mode as int) + field_u32(s.swap_mode as int)
        + field_u32(s.swap_rollover3days as int) + field_flag(s.margin_hedged_use_leg)
        + field_u32(s.expiration_mode as int) + field_u32(s.filling_mode as int)
        + field_u32(s.order_mode as int);
    let g3 = g2 + field_u32(s.order_gtc_mode as int) + field_u32(s.option_mode as int)
        + field_u32(s.option_right as int) + field_u64(s.bid as int) + field_u64(s.bidhigh as int)
        + field_u64(s.bidlow as int) + field_u64(s.ask as int) + field_u64(s.askhigh as int)
        + field_u64(s.asklow as int) + field_u64(s.last as int) + field_u64(s.lasthigh as int)
        + field_u64(s.lastlow as int) + field_u64(s.volume_real as int)
        + field_u64(s.volumehigh_real as int);
    let g4 = g3 + field_u64(s.volumelow_real as int) + field_u64(s.option_strike as int)
        + field_u64(s.point as int) + field_u64(s.trade_tick_value as int)
        + field_u64(s.trade_tick_value_profit as int) + field_u64(s.trade_tick_value_loss as int)
        + field_u64(s.trade_tick_size as int) + field_u64(s.trade_contract_size as int)
        + field_u64(s.trade_accrued_interest as int) + field_u64(s.trade_face_value as int)
        + field_u64(s.trade_liquidity_rate as int) + field_u64(s.volume_min as int)
        + field_u64(s.volume_max as int) + field_u64(s.volume_step as int);
    let g5 = g4 + field_u64(s.volume_limit as int) + field_u64(s.swap_long as int)
        + field_u64(s.swap_short as int) + field_u64(s.margin_initial as int)
        + field_u64(s.margin_maintenance as int) + field_u64(s.session_volume as int)
        + field_u64(s.session_turnover as int) + field_u64(s.session_interest as int)
        + field_u64(s.session_buy_orders_volume as int)
        + field_u64(s.session_sell_orders_volume as int) + field_u64(s.session_open as int)
        + field_u64(s.session_close as int) + field_u64(s.session_aw as int)
        + field_u64(s.session_price_settlement as int);
    let g6 = g5 + field_u64(s.session_price_limit_min as int)
        + field_u64(s.session_price_limit_max as int) + field_u64(s.margin_hedged as int)
        + field_u64(s.price_change as int) + field_u64(s.price_volatility as int)
        + field_u64(s.price_theoretical as int) + field_u64(s.price_greeks_delta as int)
        + field_u64(s.price_greeks_theta as int) + field_u64(s.price_greeks_gamma as int)
        + field_u64(s.price_greeks_vega as int) + field_u64(s.price_greeks_rho as int)
        + field_u64(s.price_greeks_omega as int) + field_u64(s.price_sensitivity as int)
        + field_text(s.basis@, 64);
    let g7 = g6 + field_text(s.category@, 128) + field_text(s.currency_base@, 32)
        + field_text(s.currency_profit@, 32) + field_text(s.currency_margin@, 32)
        + field_text(s.bank@, 512) + field_text(s.description@, 64) + field_text(s.exchange@, 64)
        + field_text(s.formula@, 1024) + field_text(s.isin@, 32) + field_text(s.page@, 128)
        + field_text(s.path@, 256) + field_text(s.name@, 64);
    assert(symbol_info_image(s) == g7) by {
        reveal(symbol_info_image);
    }
    lemma_symbol_info_part_7(s, g6, b, o);
    lemma_symbol_info_part_6(s, g5, b, o);
    lemma_symbol_info_part_5(s, g4, b, o);
    lemma_symbol_info_part_4(s, g3, b, o);
    lemma_symbol_info_part_3(s, g2, b, o);
    lemma_symbol_info_part_2(s, g1, b, o);
    assert(g0 + field_flag(s.custom) =~= field_flag(s.custom));
    lemma_symbol_info_part_1(s, g0, b, o);
}

/// The fields custom, chart mode, select, visible, session deals, session buy orders, session sell
/// orders, volume, volume high, volume low, time, digits, spread, spread float of a symbol record,
/// written after the `c` bytes before them, are read at their offsets.
proof fn lemma_symbol_info_part_1(s: SymbolInfo, c: Seq<u8>, b: Seq<u8>, o: int)
    requires
        symbol_info_fits(s),
        c.len() == 0,
        agrees_at(c + field_flag(s.custom) + field_u32(s.chart_mode as int) + field_flag(s.select)
            + field_flag(s.visible) + field_i64(s.session_deals) + field_i64(s.session_buy_orders)
            + field_i64(s.session_sell_orders) + field_i64(s.volume) + field_i64(s.volume_high)
            + field_i64(s.volume_low) + field_i64(s.time) + field_u32(s.digits as int)
            + field_u32(s.spread as int) + field_flag(s.spread_float), b, o),
    ensures
        agrees_at(c, b, o),
        (b[o] != 0) == s.custom,
        le_u32(b, o + 1) == s.chart_mode,
        (b[o + 5] != 0) == s.select,
        (b[o + 6] != 0) == s.visible,
        le_u64(b, o + 7) as i64 == s.session_deals,
        le_u64(b, o + 15) as i64 == s.session_buy_orders,
        le_u64(b, o + 23) as i64 == s.session_sell_orders,
        le_u64(b, o + 31) as i64 == s.volume,
        le_u64(b, o + 39) as i64 == s.volume_high,
        le_u64(b, o + 47) as i64 == s.volume_low,
        le_u64(b, o + 55) as i64 == s.time,
        le_u32(b, o + 63) == s.digits,
        le_u32(b, o + 67) == s.spread,
        (b[o + 71] != 0) == s.spread_float,
{
    broadcast use group_field_lens;

    let q1 = c + field_flag(s.custom);
    let q2 = q1 + field_u32(s.chart_mode as int);
    let q3 = q2 + field_flag(s.select);
    let q4 = q3 + field_flag(s.visible);
    let q5 = q4 + field_i64(s.session_deals);
    let q6 = q5 + field_i64(s.session_buy_orders);
    let q7 = q6 + field_i64(s.session_sell_orders);
    let q8 = q7 + field_i64(s.volume);
    let q9 = q8 + field_i64(s.volume_high);
    let q10 = q9 + field_i64(s.volume_low);
    let q11 = q10 + field_i64(s.time);
    let q12 = q11 + field_u32(s.digits as int);
    let q13 = q12 + field_u32(s.spread as int);
    lemma_flag_field(q13, s.spread_float, b, o);
    lemma_u32_field(q12, s.spread as int, b, o);
    lemma_u32_field(q11, s.digits as int, b, o);
    lemma_i64_field(q10, s.time, b, o);
    lemma_i64_field(q9, s.volume_low, b, o);
    lemma_i64_field(q8, s.volume_high, b, o);
    lemma_i64_field(q7, s.volume, b, o);
    lemma_i64_field(q6, s.session_sell_orders, b, o);
    lemma_i64_field(q5, s.session_buy_orders, b, o);
    lemma_i64_field(q4, s.session_deals, b, o);
    lemma_flag_field(q3, s.visible, b, o);
    lemma_flag_field(q2, s.select, b, o);
    lemma_u32_field(q1, s.chart_mode as int, b, o);
    lemma_flag_field(c, s.custom, b, o);
}

/// The fields ticks book depth, trade calc mode, trade mode, start time, expiration time, trade
/// stops level, trade freeze level, trade exe mode, swap mode, swap rollover3days, margin hedged
/// use leg, expiration mode, filling mode, order mode of a symbol record, written after the `c`
/// bytes before them, are read at their offsets.
proof fn lemma_symbol_info_part_2(s: SymbolInfo, c: Seq<u8>, b: Seq<u8>, o: int)
    requires
        symbol_info_fits(s),
        c.len() == 72,
        agrees_at(c + field_u32(s.ticks_book_depth as int) + field_u32(s.trade_calc_mode as int)
            + field_u32(s.trade_mode as int) + field_i64(s.start_time)
            + field_i64(s.expiration_time) + field_u32(s.trade_stops_level as int)
            + field_u32(s.trade_freeze_level as int) + field_u32(s.trade_exe_mode as int)
            + field_u32(s.swap_mode as int) + field_u32(s.swap_rollover3days as int)
            + field_flag(s.margin_hedged_use_leg) + field_u32(s.expiration_mode as int)
            + field_u32(s.filling_mode as int) + field_u32(s.order_mode as int), b, o),
    ensures
        agrees_at(c, b, o),
        le_u32(b, o + 72) == s.ticks_book_depth,
        le_u32(b, o + 76) == s.trade_calc_mode,
        le_u32(b, o + 80) == s.trade_mode,
        le_u64(b, o + 84) as i64 == s.start_time,
        le_u64(b, o + 92) as i64 == s.expiration_time,
        le_u32(b, o + 100) == s.trade_stops_level,
        le_u32(b, o + 104) == s.trade_freeze_level,
        le_u32(b, o + 108) == s.trade_exe_mode,
        le_u32(b, o + 112) == s.swap_mode,
        le_u32(b, o + 116) == s.swap_rollover3days,
        (b[o + 120] != 0) == s.margin_hedged_use_leg,
        le_u32(b, o + 121) == s.expiration_mode,
        le_u32(b, o + 125) == s.filling_mode,
        le_u32(b, o + 129) == s.order_mode,
{
    broadcast use group_field_lens;

    let q1 = c + field_u32(s.ticks_book_depth as int);
    let q2 = q1 + field_u32(s.trade_calc_mode as int);
    let q3 = q2 + field_u32(s.trade_mode as int);
    let q4 = q3 + field_i64(s.start_time);
    let q5 = q4 + field_i64(s.expiration_time);
    let q6 = q5 + field_u32(s.trade_stops_level as int);
    let q7 = q6 + field_u32(s.trade_freeze_level as int);
    let q8 = q7 + field_u32(s.trade_exe_mode as int);
    let q9 = q8 + field_u32(s.swap_mode as int);
    let q10 = q9 + field_u32(s.swap_rollover3days as int);
    let q11 = q10 + field_flag(s.margin_hedged_use_leg);
    let q12 = q11 + field_u32(s.expiration_mode as int);
    let q13 = q12 + field_u32(s.filling_mode as int);
    lemma_u32_field(q13, s.order_mode as int, b, o);
    lemma_u32_field(q12, s.filling_mode as int, b, o);
    lemma_u32_field(q11, s.expiration_mode as int, b, o);
    lemma_flag_field(q10, s.margin_hedged_use_leg, b, o);
    lemma_u32_field(q9, s.swap_rollover3days as int, b, o);
    lemma_u32_field(q8, s.swap_mode as int, b, o);
    lemma_u32_field(q7, s.trade_exe_mode as int, b, o);
    lemma_u32_field(q6, s.trade_freeze_level as int, b, o);
    lemma_u32_field(q5, s.trade_stops_level as int, b, o);
    lemma_i64_field(q4, s.expiration_time, b, o);
    lemma_i64_field(q3, s.start_time, b, o);
    lemma_u32_field(q2, s.trade_mode as int, b, o);
    lemma_u32_field(q1, s.trade_calc_mode as int, b, o);
    lemma_u32_field(c, s.ticks_book_depth as int, b, o);
}

/// The fields order gtc mode, option mode, option right, bid, bidhigh, bidlow, ask, askhigh,
/// asklow, last, lasthigh, lastlow, volume real, volumehigh real of a symbol record, written after
/// the `c` bytes before them, are read at their offsets.
proof fn lemma_symbol_info_part_3(s: SymbolInfo, c: Seq<u8>, b: Seq<u8>, o: int)
    requires
        symbol_info_fits(s),
        c.len() == 133,
        agrees_at(c + field_u32(s.order_gtc_mode as int) + field_u32(s.option_mode as int)
            + field_u32(s.option_right as int) + field_u64(s.bid as int)
            + field_u64(s.bidhigh as int) + field_u64(s.bidlow as int) + field_u64(s.ask as int)
            + field_u64(s.askhigh as int) + field_u64(s.asklow as int) + field_u64(s.last as int)
            + field_u64(s.lasthigh as int) + field_u64(s.lastlow as int)
            + field_u64(s.volume_real as int) + field_u64(s.volumehigh_real as int), b, o),
    ensures
        agrees_at(c, b, o),
        le_u32(b, o + 133) == s.order_gtc_mode,
        le_u32(b, o + 137) == s.option_mode,
        le_u32(b, o + 141) == s.option_right,
        le_u64(b, o + 145) == s.bid,
        le_u64(b, o + 153) == s.bidhigh,
        le_u64(b, o + 161) == s.bidlow,
        le_u64(b, o + 169) == s.ask,
        le_u64(b, o + 177) == s.askhigh,
        le_u64(b, o + 185) == s.asklow,
        le_u64(b, o + 193) == s.last,
        le_u64(b, o + 201) == s.lasthigh,
        le_u64(b, o + 209) == s.lastlow,
        le_u64(b, o + 217) == s.volume_real,
        le_u64(b, o + 225) == s.volumehigh_real,
{
    broadcast use group_field_lens;

    let q1 = c + field_u32(s.order_gtc_mode as int);
    let q2 = q1 + field_u32(s.option_mode as int);
    let q3 = q2 + field_u32(s.option_right as int);
    let q4 = q3 + field_u64(s.bid as int);
    let q5 = q4 + field_u64(s.bidhigh as int);
    let q6 = q5 + field_u64(s.bidlow as int);
    let q7 = q6 + field_u64(s.ask as int);
    let q8 = q7 + field_u64(s.askhigh as int);
    let q9 = q8 + field_u64(s.asklow as int);
    let q10 = q9 + field_u64(s.last as int);
    let q11 = q10 + field_u64(s.lasthigh as int);
    let q12 = q11 + field_u64(s.lastlow as int);
    let q13 = q12 + field_u64(s.volume_real as int);
    lemma_u64_field(q13, s.volumehigh_real as int, b, o);
    lemma_u64_field(q12, s.volume_real as int, b, o);
    lemma_u64_field(q11, s.lastlow as int, b, o);
    lemma_u64_field(q10, s.lasthigh as int, b, o);
    lemma_u64_field(q9, s.last as int, b, o);
    lemma_u64_field(q8, s.asklow as int, b, o);
    lemma_u64_field(q7, s.askhigh as int, b, o);
    lemma_u64_field(q6, s.ask as int, b, o);
    lemma_u64_field(q5, s.bidlow as int, b, o);
    lemma_u64_field(q4, s.bidhigh as int, b, o);
    lemma_u64_field(q3, s.bid as int, b, o);
    lemma_u32_field(q2, s.option_right as int, b, o);
    lemma_u32_field(q1, s.option_mode as int, b, o);
    lemma_u32_field(c, s.order_gtc_mode as int, b, o);
}

/// The fields volumelow real, option strike, point, trade tick value, trade tick value profit,
/// trade tick value loss, trade tick size, trade contract size, trade accrued interest, trade face
/// value, trade liquidity rate, volume min, volume max, volume step of a symbol record, written
/// after the `c` bytes before them, are read at their offsets.
proof fn lemma_symbol_info_part_4(s: SymbolInfo, c: Seq<u8>, b: Seq<u8>, o: int)
    requires
        symbol_info_fits(s),
        c.len() == 233,
        agrees_at(c + field_u64(s.volumelow_real as int) + field_u64(s.option_strike as int)
            + field_u64(s.point as int) + field_u64(s.trade_tick_value as int)
            + field_u64(s.trade_tick_value_profit as int)
            + field_u64(s.trade_tick_value_loss as int) + field_u64(s.trade_tick_size as int)
            + field_u64(s.trade_contract_size as int) + field_u64(s.trade_accrued_interest as int)
            + field_u64(s.trade_face_value as int) + field_u64(s.trade_liquidity_rate as int)
            + field_u64(s.volume_min as int) + field_u64(s.volume_max as int)
            + field_u64(s.volume_step as int), b, o),
    ensures
        agrees_at(c, b, o),
        le_u64(b, o + 233) == s.volumelow_real,
        le_u64(b, o + 241) == s.option_strike,
        le_u64(b, o + 249) == s.point,
        le_u64(b, o + 257) == s.trade_tick_value,
        le_u64(b, o + 265) == s.trade_tick_value_profit,
        le_u64(b, o + 273) == s.trade_tick_value_loss,
        le_u64(b, o + 281) == s.trade_tick_size,
        le_u64(b, o + 289) == s.trade_contract_size,
        le_u64(b, o + 297) == s.trade_accrued_interest,
        le_u64(b, o + 305) == s.trade_face_value,
        le_u64(b, o + 313) == s.trade_liquidity_rate,
        le_u64(b, o + 321) == s.volume_min,
        le_u64(b, o + 329) == s.volume_max,
        le_u64(b, o + 337) == s.volume_step,
{
    broadcast use group_field_lens;

    let q1 = c + field_u64(s.volumelow_real as int);
    let q2 = q1 + field_u64(s.option_strike as int);
    let q3 = q2 + field_u64(s.point as int);
    let q4 = q3 + field_u64(s.trade_tick_value as int);
    let q5 = q4 + field_u64(s.trade_tick_value_profit as int);
    let q6 = q5 + field_u64(s.trade_tick_value_loss as int);
    let q7 = q6 + field_u64(s.trade_tick_size as int);
    let q8 = q7 + field_u64(s.trade_contract_size as int);
    let q9 = q8 + field_u64(s.trade_accrued_interest as int);
    let q10 = q9 + field_u64(s.trade_face_value as int);
    let q11 = q10 + field_u64(s.trade_liquidity_rate as int);
    let q12 = q11 + field_u64(s.volume_min as int);
    let q13 = q12 + field_u64(s.volume_max as int);
    lemma_u64_field(q13, s.volume_step as int, b, o);
    lemma_u64_field(q12, s.volume_max as int, b, o);
    lemma_u64_field(q11, s.volume_min as int, b, o);
    lemma_u64_field(q10, s.trade_liquidity_rate as int, b, o);
    lemma_u64_field(q9, s.trade_face_value as int, b, o);
    lemma_u64_field(q8, s.trade_accrued_interest as int, b, o);
    lemma_u64_field(q7, s.trade_contract_size as int, b, o);
    lemma_u64_field(q6, s.trade_tick_size as int, b, o);
    lemma_u64_field(q5, s.trade_tick_value_loss as int, b, o);
    lemma_u64_field(q4, s.trade_tick_value_profit as int, b, o);
    lemma_u64_field(q3, s.trade_tick_value as int, b, o);
    lemma_u64_field(q2, s.point as int, b, o);
    lemma_u64_field(q1, s.option_strike as int, b, o);
    lemma_u64_field(c, s.volumelow_real as int, b, o);
}

/// The fields volume limit, swap long, swap short, margin initial, margin maintenance, session
/// volume, session turnover, session interest, session buy orders volume, session sell orders
/// volume, session open, session close, session aw, session price settlement of a symbol record,
/// written after the `c` bytes before them, are read at their offsets.
proof fn lemma_symbol_info_part_5(s: SymbolInfo, c: Seq<u8>, b: Seq<u8>, o: int)
    requires
        symbol_info_fits(s),
        c.len() == 345,
        agrees_at(c + field_u64(s.volume_limit as int) + field_u64(s.swap_long as int)
            + field_u64(s.swap_short as int) + field_u64(s.margin_initial as int)
            + field_u64(s.margin_maintenance as int) + field_u64(s.session_volume as int)
            + field_u64(s.session_turnover as int) + field_u64(s.session_interest as int)
            + field_u64(s.session_buy_orders_volume as int)
            + field_u64(s.session_sell_orders_volume as int) + field_u64(s.session_open as int)
            + field_u64(s.session_close as int) + field_u64(s.session_aw as int)
            + field_u64(s.session_price_settlement as int), b, o),
    ensures
        agrees_at(c, b, o),
        le_u64(b, o + 345) == s.volume_limit,
        le_u64(b, o + 353) == s.swap_long,
        le_u64(b, o + 361) == s.swap_short,
        le_u64(b, o + 369) == s.margin_initial,
        le_u64(b, o + 377) == s.margin_maintenance,
        le_u64(b, o + 385) == s.session_volume,
        le_u64(b, o + 393) == s.session_turnover,
        le_u64(b, o + 401) == s.session_interest,
        le_u64(b, o + 409) == s.session_buy_orders_volume,
        le_u64(b, o + 417) == s.session_sell_orders_volume,
        le_u64(b, o + 425) == s.session_open,
        le_u64(b, o + 433) == s.session_close,
        le_u64(b, o + 441) == s.session_aw,
        le_u64(b, o + 449) == s.session_price_settlement,
{
    broadcast use group_field_lens;

    let q1 = c + field_u64(s.volume_limit as int);
    let q2 = q1 + field_u64(s.swap_long as int);
    let q3 = q2 + field_u64(s.swap_short as int);
    let q4 = q3 + field_u64(s.margin_initial as int);
    let q5 = q4 + field_u64(s.margin_maintenance as int);
    let q6 = q5 + field_u64(s.session_volume as int);
    let q7 = q6 + field_u64(s.session_turnover as int);
    let q8 = q7 + field_u64(s.session_interest as int);
    let q9 = q8 + field_u64(s.session_buy_orders_volume as int);
    let q10 = q9 + field_u64(s.session_sell_orders_volume as int);
    let q11 = q10 + field_u64(s.session_open as int);
    let q12 = q11 + field_u64(s.session_close as int);
    let q13 = q12 + field_u64(s.session_aw as int);
    lemma_u64_field(q13, s.session_price_settlement as int, b, o);
    lemma_u64_field(q12, s.session_aw as int, b, o);
    lemma_u64_field(q11, s.session_close as int, b, o);
    lemma_u64_field(q10, s.session_open as int, b, o);
    lemma_u64_field(q9, s.session_sell_orders_volume as int, b, o);
    lemma_u64_field(q8, s.session_buy_orders_volume as int, b, o);
    lemma_u64_field(q7, s.session_interest as int, b, o);
    lemma_u64_field(q6, s.session_turnover as int, b, o);
    lemma_u64_field(q5, s.session_volume as int, b, o);
    lemma_u64_field(q4, s.margin_maintenance as int, b, o);
    lemma_u64_field(q3, s.margin_initial as int, b, o);
    lemma_u64_field(q2, s.swap_short as int, b, o);
    lemma_u64_field(q1, s.swap_long as int, b, o);
    lemma_u64_field(c, s.volume_limit as int, b, o);
}

/// The fields session price limit min, session price limit max, margin hedged, price change, price
/// volatility, price theoretical, price greeks delta, price greeks theta, price greeks gamma, price
/// greeks vega, price greeks rho, price greeks omega, price sensitivity, basis of a symbol record,
/// written after the `c` bytes before them, are read at their offsets.
proof fn lemma_symbol_info_part_6(s: SymbolInfo, c: Seq<u8>, b: Seq<u8>, o: int)
    requires
        symbol_info_fits(s),
        c.len() == 457,
        agrees_at(c + field_u64(s.session_price_limit_min as int)
            + field_u64(s.session_price_limit_max as int) + field_u64(s.margin_hedged as int)
            + field_u64(s.price_change as int) + field_u64(s.price_volatility as int)
            + field_u64(s.price_theoretical as int) + field_u64(s.price_greeks_delta as int)
            + field_u64(s.price_greeks_theta as int) + field_u64(s.price_greeks_gamma as int)
            + field_u64(s.price_greeks_vega as int) + field_u64(s.price_greeks_rho as int)
            + field_u64(s.price_greeks_omega as int) + field_u64(s.price_sensitivity as int)
            + field_text(s.basis@, 64), b, o),
    ensures
        agrees_at(c, b, o),
        le_u64(b, o + 457) == s.session_price_limit_min,
        le_u64(b, o + 465) == s.session_price_limit_max,
        le_u64(b, o + 473) == s.margin_hedged,
        le_u64(b, o + 481) == s.price_change,
        le_u64(b, o + 489) == s.price_volatility,
        le_u64(b, o + 497) == s.price_theoretical,
        le_u64(b, o + 505) == s.price_greeks_delta,
        le_u64(b, o + 513) == s.price_greeks_theta,
        le_u64(b, o + 521) == s.price_greeks_gamma,
        le_u64(b, o + 529) == s.price_greeks_vega,
        le_u64(b, o + 537) == s.price_greeks_rho,
        le_u64(b, o + 545) == s.price_greeks_omega,
        le_u64(b, o + 553) == s.price_sensitivity,
        slot_text(b, o + 561, 64) == s.basis@,
{
    broadcast use group_field_lens;

    let q1 = c + field_u64(s.session_price_limit_min as int);
    let q2 = q1 + field_u64(s.session_price_limit_max as int);
    let q3 = q2 + field_u64(s.margin_hedged as int);
    let q4 = q3 + field_u64(s.price_change as int);
    let q5 = q4 + field_u64(s.price_volatility as int);
    let q6 = q5 + field_u64(s.price_theoretical as int);
    let q7 = q6 + field_u64(s.price_greeks_delta as int);
    let q8 = q7 + field_u64(s.price_greeks_theta as int);
    let q9 = q8 + field_u64(s.price_greeks_gamma as int);
    let q10 = q9 + field_u64(s.price_greeks_vega as int);
    let q11 = q10 + field_u64(s.price_greeks_rho as int);
    let q12 = q11 + field_u64(s.price_greeks_omega as int);
    let q13 = q12 + field_u64(s.price_sensitivity as int);
    lemma_text_field(q13, s.basis@, 64, b, o);
    lemma_u64_field(q12, s.price_sensitivity as int, b, o);
    lemma_u64_field(q11, s.price_greeks_omega as int, b, o);
    lemma_u64_field(q10, s.price_greeks_rho as int, b, o);
    lemma_u64_field(q9, s.price_greeks_vega as int, b, o);
    lemma_u64_field(q8, s.price_greeks_gamma as int, b, o);
    lemma_u64_field(q7, s.price_greeks_theta as int, b, o);
    lemma_u64_field(q6, s.price_greeks_delta as int, b, o);
    lemma_u64_field(q5, s.price_theoretical as int, b, o);
    lemma_u64_field(q4, s.price_volatility as int, b, o);
    lemma_u64_field(q3, s.price_change as int, b, o);
    lemma_u64_field(q2, s.margin_hedged as int, b, o);
    lemma_u64_field(q1, s.session_price_limit_max as int, b, o);
    lemma_u64_field(c, s.session_price_limit_min as int, b, o);
}

/// The fields category, currency base, currency profit, currency margin, bank, description,
/// exchange, formula, isin, page, path, name of a symbol record, written after the `c` bytes before
/// them, are read at their offsets.
proof fn lemma_symbol_info_part_7(s: SymbolInfo, c: Seq<u8>, b: Seq<u8>, o: int)
    requires
        symbol_info_fits(s),
        c.len() == 625,
        agrees_at(c + field_text(s.category@, 128) + field_text(s.currency_base@, 32)
            + field_text(s.currency_profit@, 32) + field_text(s.currency_margin@, 32)
            + field_text(s.bank@, 512) + field_text(s.description@, 64)
            + field_text(s.exchange@, 64) + field_text(s.formula@, 1024) + field_text(s.isin@, 32)
            + field_text(s.page@, 128) + field_text(s.path@, 256) + field_text(s.name@, 64), b, o),
    ensures
        agrees_at(c, b, o),
        slot_text(b, o + 625, 128) == s.category@,
        slot_text(b, o + 753, 32) == s.currency_base@,
        slot_text(b, o + 785, 32) == s.currency_profit@,
        slot_text(b, o + 817, 32) == s.currency_margin@,
        slot_text(b, o + 849, 512) == s.bank@,
        slot_text(b, o + 1361, 64) == s.description@,
        slot_text(b, o + 1425, 64) == s.exchange@,
        slot_text(b, o + 1489, 1024) == s.formula@,
        slot_text(b, o + 2513, 32) == s.isin@,
        slot_text(b, o + 2545, 128) == s.page@,
        slot_text(b, o + 2673, 256) == s.path@,
        slot_text(b, o + 2929, 64) == s.name@,
{
    broadcast use group_field_lens;

    let q1 = c + field_text(s.category@, 128);
    let q2 = q1 + field_text(s.currency_base@, 32);
    let q3 = q2 + field_text(s.currency_profit@, 32);
    let q4 = q3 + field_text(s.currency_margin@, 32);
    let q5 = q4 + field_text(s.bank@, 512);
    let q6 = q5 + field_text(s.description@, 64);
    let q7 = q6 + field_text(s.exchange@, 64);
    let q8 = q7 + field_text(s.formula@, 1024);
    let q9 = q8 + field_text(s.isin@, 32);
    let q10 = q9 + field_text(s.page@, 128);
    let q11 = q10 + field_text(s.path@, 256);
    lemma_text_field(q11, s.name@, 64, b, o);
    lemma_text_field(q10, s.path@, 256, b, o);
    lemma_text_field(q9, s.page@, 128, b, o);
    lemma_text_field(q8, s.isin@, 32, b, o);
    lemma_text_field(q7, s.formula@, 1024, b, o);
    lemma_text_field(q6, s.exchange@, 64, b, o);
    lemma_text_field(q5, s.description@, 64, b, o);
    lemma_text_field(q4, s.bank@, 512, b, o);
    lemma_text_field(q3, s.currency_margin@, 32, b, o);
    lemma_text_field(q2, s.currency_profit@, 32, b, o);
    lemma_text_field(q1, s.currency_base@, 32, b, o);
    lemma_text_field(c, s.category@, 128, b, o);
}

/// The image of a symbol record takes the record's size.
pub proof fn lemma_symbol_info_image_len(s: SymbolInfo)
    ensures
        symbol_info_image(s).len() == SYMBOL_INFO_LEN,
{
    broadcast use group_field_lens;

    let g1 = field_flag(s.custom) + field_u32(s.chart_mode as int) + field_flag(s.select)
        + field_flag(s.visible) + field_i64(s.session_deals) + field_i64(s.session_buy_orders)
        + field_i64(s.session_sell_orders) + field_i64(s.volume) + field_i64(s.volume_high)
        + field_i64(s.volume_low) + field_i64(s.time) + field_u32(s.digits as int)
        + field_u32(s.spread as int) + field_flag(s.spread_float);
    assert(g1.len() == 72);
    let g2 = g1 + field_u32(s.ticks_book_depth as int) + field_u32(s.trade_calc_mode as int)
        + field_u32(s.trade_mode as int) + field_i64(s.start_time) + field_i64(s.expiration_time)
        + field_u32(s.trade_stops_level as int) + field_u32(s.trade_freeze_level as int)
        + field_u32(s.trade_exe_mode as int) + field_u32(s.swap_mode as int)
        + field_u32(s.swap_rollover3days as int) + field_flag(s.margin_hedged_use_leg)
        + field_u32(s.expiration_mode as int) + field_u32(s.filling_mode as int)
        + field_u32(s.order_mode as int);
    assert(g2.len() == 133);
    let g3 = g2 + field_u32(s.order_gtc_mode as int) + field_u32(s.option_mode as int)
        + field_u32(s.option_right as int) + field_u64(s.bid as int) + field_u64(s.bidhigh as int)
        + field_u64(s.bidlow as int) + field_u64(s.ask as int) + field_u64(s.askhigh as int)
        + field_u64(s.asklow as int) + field_u64(s.last as int) + field_u64(s.lasthigh as int)
        + field_u64(s.lastlow as int) + field_u64(s.volume_real as int)
        + field_u64(s.volumehigh_real as int);
    assert(g3.len() == 233);
    let g4 = g3 + field_u64(s.volumelow_real as int) + field_u64(s.option_strike as int)
        + field_u64(s.point as int) + field_u64(s.trade_tick_value as int)
        + field_u64(s.trade_tick_value_profit as int) + field_u64(s.trade_tick_value_loss as int)
        + field_u64(s.trade_tick_size as int) + field_u64(s.trade_contract_size as int)
        + field_u64(s.trade_accrued_interest as int) + field_u64(s.trade_face_value as int)
        + field_u64(s.trade_liquidity_rate as int) + field_u64(s.volume_min as int)
        + field_u64(s.volume_max as int) + field_u64(s.volume_step as int);
    assert(g4.len() == 345);
    let g5 = g4 + field_u64(s.volume_limit as int) + field_u64(s.swap_long as int)
        + field_u64(s.swap_short as int) + field_u64(s.margin_initial as int)
        + field_u64(s.margin_maintenance as int) + field_u64(s.session_volume as int)
        + field_u64(s.session_turnover as int) + field_u64(s.session_interest as int)
        + field_u64(s.session_buy_orders_volume as int)
        + field_u64(s.session_sell_orders_volume as int) + field_u64(s.session_open as int)
        + field_u64(s.session_close as int) + field_u64(s.session_aw as int)
        + field_u64(s.session_price_settlement as int);
    assert(g5.len() == 457);
    let g6 = g5 + field_u64(s.session_price_limit_min as int)
        + field_u64(s.session_price_limit_max as int) + field_u64(s.margin_hedged as int)
        + field_u64(s.price_change as int) + field_u64(s.price_volatility as int)
        + field_u64(s.price_theoretical as int) + field_u64(s.price_greeks_delta as int)
        + field_u64(s.price_greeks_theta as int) + field_u64(s.price_greeks_gamma as int)
        + field_u64(s.price_greeks_vega as int) + field_u64(s.price_greeks_rho as int)
        + field_u64(s.price_greeks_omega as int) + field_u64(s.price_sensitivity as int)
        + field_text(s.basis@, 64);
    assert(g6.len() == 625);
    let g7 = g6 + field_text(s.category@, 128) + field_text(s.currency_base@, 32)
        + field_text(s.currency_profit@, 32) + field_text(s.currency_margin@, 32)
        + field_text(s.bank@, 512) + field_text(s.description@, 64) + field_text(s.exchange@, 64)
        + field_text(s.formula@, 1024) + field_text(s.isin@, 32) + field_text(s.page@, 128)
        + field_text(s.path@, 256) + field_text(s.name@, 64);
    assert(g7.len() == 2993);
    assert(symbol_info_image(s) == g7) by {
        reveal(symbol_info_image);
    }
}

/// Whether two values of `SymbolInfo` hold the same fields, texts compared by their characters.
pub open spec fn same_symbol_info(a: SymbolInfo, b: SymbolInfo) -> bool {
    &&& a.custom == b.custom
    &&& a.chart_mode == b.chart_mode
    &&& a.select == b.select
    &&& a.visible == b.visible
    &&& a.session_deals == b.session_deals
    &&& a.session_buy_orders == b.session_buy_orders
    &&& a.session_sell_orders == b.session_sell_orders
    &&& a.volume == b.volume
    &&& a.volume_high == b.volume_high
    &&& a.volume_low == b.volume_low
    &&& a.time == b.time
    &&& a.digits == b.digits
    &&& a.spread == b.spread
    &&& a.spread_float == b.spread_float
    &&& a.ticks_book_depth == b.ticks_book_depth
    &&& a.trade_calc_mode == b.trade_calc_mode
    &&& a.trade_mode == b.trade_mode
    &&& a.start_time == b.start_time
    &&& a.expiration_time == b.expiration_time
    &&& a.trade_stops_level == b.trade_stops_level
    &&& a.trade_freeze_level == b.trade_freeze_level
    &&& a.trade_exe_mode == b.trade_exe_mode
    &&& a.swap_mode == b.swap_mode
    &&& a.swap_rollover3days == b.swap_rollover3days
    &&& a.margin_hedged_use_leg == b.margin_hedged_use_leg
    &&& a.expiration_mode == b.expiration_mode
    &&& a.filling_mode == b.filling_mode
    &&& a.order_mode == b.order_mode
    &&& a.order_gtc_mode == b.order_gtc_mode
    &&& a.option_mode == b.option_mode
    &&& a.option_right == b.option_right
    &&& a.bid == b.bid
    &&& a.bidhigh == b.bidhigh
    &&& a.bidlow == b.bidlow
    &&& a.ask == b.ask
    &&& a.askhigh == b.askhigh
    &&& a.asklow == b.asklow
    &&& a.last == b.last
    &&& a.lasthigh == b.lasthigh
    &&& a.lastlow == b.lastlow
    &&& a.volume_real == b.volume_real
    &&& a.volumehigh_real == b.volumehigh_real
    &&& a.volumelow_real == b.volumelow_real
    &&& a.option_strike == b.option_strike
    &&& a.point == b.point
    &&& a.trade_tick_value == b.trade_tick_value
    &&& a.trade_tick_value_profit == b.trade_tick_value_profit
    &&& a.trade_tick_value_loss == b.trade_tick_value_loss
    &&& a.trade_tick_size == b.trade_tick_size
    &&& a.trade_contract_size == b.trade_contract_size
    &&& a.trade_accrued_interest == b.trade_accrued_interest
    &&& a.trade_face_value == b.trade_face_value
    &&& a.trade_liquidity_rate == b.trade_liquidity_rate
    &&& a.volume_min == b.volume_min
    &&& a.volume_max == b.volume_max
    &&& a.volume_step == b.volume_step
    &&& a.volume_limit == b.volume_limit
    &&& a.swap_long == b.swap_long
    &&& a.swap_short == b.swap_short
    &&& a.margin_initial == b.margin_initial
    &&& a.margin_maintenance == b.margin_maintenance
    &&& a.session_volume == b.session_volume
    &&& a.session_turnover == b.session_turnover
    &&& a.session_interest == b.session_interest
    &&& a.session_buy_orders_volume == b.session_buy_orders_volume
    &&& a.session_sell_orders_volume == b.session_sell_orders_volume
    &&& a.session_open == b.session_open
    &&& a.session_close == b.session_close
    &&& a.session_aw == b.session_aw
    &&& a.session_price_settlement == b.session_price_settlement
    &&& a.session_price_limit_min == b.session_price_limit_min
    &&& a.session_price_limit_max == b.session_price_limit_max
    &&& a.margin_hedged == b.margin_hedged
    &&& a.price_change == b.price_change
    &&& a.price_volatility == b.price_volatility
    &&& a.price_theoretical == b.price_theoretical
    &&& a.price_greeks_delta == b.price_greeks_delta
    &&& a.price_greeks_theta == b.price_greeks_theta
    &&& a.price_greeks_gamma == b.price_greeks_gamma
    &&& a.price_greeks_vega == b.price_greeks_vega
    &&& a.price_greeks_rho == b.price_greeks_rho
    &&& a.price_greeks_omega == b.price_greeks_omega
    &&& a.price_sensitivity == b.price_sensitivity
    &&& a.basis@ == b.basis@
    &&& a.category@ == b.category@
    &&& a.currency_base@ == b.currency_base@
    &&& a.currency_profit@ == b.currency_profit@
    &&& a.currency_margin@ == b.currency_margin@
    &&& a.bank@ == b.bank@
    &&& a.description@ == b.description@
    &&& a.exchange@ == b.exchange@
    &&& a.formula@ == b.formula@
    &&& a.isin@ == b.isin@
    &&& a.page@ == b.page@
    &&& a.path@ == b.path@
    &&& a.name@ == b.name@
}

/// A response that holds the count `count` in four bytes and then the image of each record of `rs`
/// in turn.
pub open spec fn symbols_response(count: int, rs: Seq<SymbolInfo>) -> Seq<u8> {
    list_response(count, rs, |r: SymbolInfo| symbol_info_image(r))
}

/// The symbols of a response written as a count and then each record's image in turn, with any
/// bytes after them, are read back by [`crate::client::decode_symbols`] where the count is at most
/// the records written: what its contract allows it to return for these bytes has the count's
/// length and, at each place, the record written there.
pub proof fn law_symbols_response_round_trip(
    count: int,
    rs: Seq<SymbolInfo>,
    post: Seq<u8>,
    v: Seq<SymbolInfo>,
)
    requires
        0 <= count < 0x1_0000_0000,
        count <= rs.len(),
        forall|j: int| 0 <= j < rs.len() ==> #[trigger] symbol_info_fits(rs[j]),
        v.len() == le_u32(symbols_response(count, rs) + post, 0),
        forall|j: int|
            0 <= j < v.len() ==> #[trigger] symbol_info_at(
                v[j],
                symbols_response(count, rs) + post,
                4 + j * SYMBOL_INFO_LEN,
            ),
    ensures
        v.len() == count,
        forall|j: int| 0 <= j < v.len() ==> #[trigger] same_symbol_info(v[j], rs[j]),
{
    let f = |r: SymbolInfo| symbol_info_image(r);
    let data = symbols_response(count, rs) + post;
    assert forall|t: SymbolInfo| #[trigger] f(t).len() == SYMBOL_INFO_LEN by {
        lemma_symbol_info_image_len(t);
    }
    lemma_list_response(count, rs, f, SYMBOL_INFO_LEN as int, post);
    assert forall|j: int| 0 <= j < v.len() implies #[trigger] same_symbol_info(v[j], rs[j]) by {
        let o = 4 + j * SYMBOL_INFO_LEN;
        assert(agrees_at(f(rs[j]), data, o));
        lemma_symbol_info_image_len(rs[j]);
        assert(symbol_info_at(v[j], data, o));
        lemma_symbol_info_fields(rs[j], v[j], data, o);
    }
}

/// An open-position record written field by field, in the order the terminal sends it: ticket,
/// time, time msc, time update, time update msc, type, magic, identifier, reason, volume, price
/// open, price current, price sl, price tp, swap, profit, symbol, comment, external id.
#[verifier::opaque]
pub open spec fn position_image(p: TradePosition) -> Seq<u8> {
    field_i64(p.ticket)
        + field_i64(p.time)
        + field_i64(p.time_msc)
        + field_i64(p.time_update)
        + field_i64(p.time_update_msc)
        + field_i32(p.type_)
        + field_i64(p.magic)
        + field_i64(p.identifier)
        + field_i32(p.reason)
        + field_u64(p.volume as int)
        + field_u64(p.price_open as int)
        + field_u64(p.price_current as int)
        + field_u64(p.price_sl as int)
        + field_u64(p.price_tp as int)
        + field_u64(p.swap as int)
        + field_u64(p.profit as int)
        + field_text(p.symbol@, 64)
        + field_text(p.comment@, 64)
        + field_text(p.external_id@, 64)
}

/// Whether every field of an open-position record fits its place on the wire: the counts and codes
/// sent in four bytes are within their range and the texts fit their slots.
pub open spec fn position_fits(p: TradePosition) -> bool {
    &&& fits_slot(p.symbol@, 64)
    &&& fits_slot(p.comment@, 64)
    &&& fits_slot(p.external_id@, 64)
}

/// An open-position record written field by field, with any bytes before and after it, is decoded
/// back to the same record: each field is read from the offset its predecessors put it at.
#[verifier::spinoff_prover]
pub proof fn law_position_round_trip(
    p: TradePosition,
    x: TradePosition,
    pre: Seq<u8>,
    post: Seq<u8>,
)
    requires
        position_fits(p),
        position_at(x, pre + position_image(p) + post, pre.len() as int),
    ensures
        x.ticket == p.ticket,
        x.time == p.time,
        x.time_msc == p.time_msc,
        x.time_update == p.time_update,
        x.time_update_msc == p.time_update_msc,
        x.type_ == p.type_,
        x.magic == p.magic,
        x.identifier == p.identifier,
        x.reason == p.reason,
        x.volume == p.volume,
        x.price_open == p.price_open,
        x.price_current == p.price_current,
        x.price_sl == p.price_sl,
        x.price_tp == p.price_tp,
        x.swap == p.swap,
        x.profit == p.profit,
        x.symbol@ == p.symbol@,
        x.comment@ == p.comment@,
        x.external_id@ == p.external_id@,
{
    broadcast use group_field_lens;

    let b = pre + position_image(p) + post;
    let o = pre.len() as int;
    let q0 = Seq::<u8>::empty();
    let q1 = field_i64(p.ticket);
    let q2 = q1 + field_i64(p.time);
    let q3 = q2 + field_i64(p.time_msc);
    let q4 = q3 + field_i64(p.time_update);
    let q5 = q4 + field_i64(p.time_update_msc);
    let q6 = q5 + field_i32(p.type_);
    let q7 = q6 + field_i64(p.magic);
    let q8 = q7 + field_i64(p.identifier);
    let q9 = q8 + field_i32(p.reason);
    let q10 = q9 + field_u64(p.volume as int);
    let q11 = q10 + field_u64(p.price_open as int);
    let q12 = q11 + field_u64(p.price_current as int);
    let q13 = q12 + field_u64(p.price_sl as int);
    let q14 = q13 + field_u64(p.price_tp as int);
    let q15 = q14 + field_u64(p.swap as int);
    let q16 = q15 + field_u64(p.profit as int);
    let q17 = q16 + field_text(p.symbol@, 64);
    let q18 = q17 + field_text(p.comment@, 64);
    lemma_window(position_image(p), pre, post);
    assert(position_image(p) == q18 + field_text(p.external_id@, 64)) by {
        reveal(position_image);
    }
    lemma_text_field(q18, p.external_id@, 64, b, o);
    lemma_text_field(q17, p.comment@, 64, b, o);
    lemma_text_field(q16, p.symbol@, 64, b, o);
    lemma_u64_field(q15, p.profit as int, b, o);
    lemma_u64_field(q14, p.swap as int, b, o);
    lemma_u64_field(q13, p.price_tp as int, b, o);
    lemma_u64_field(q12, p.price_sl as int, b, o);
    lemma_u64_field(q11, p.price_current as int, b, o);
    lemma_u64_field(q10, p.price_open as int, b, o);
    lemma_u64_field(q9, p.volume as int, b, o);
    lemma_i32_field(q8, p.reason, b, o);
    lemma_i64_field(q7, p.identifier, b, o);
    lemma_i64_field(q6, p.magic, b, o);
    lemma_i32_field(q5, p.type_, b, o);
    lemma_i64_field(q4, p.time_update_msc, b, o);
    lemma_i64_field(q3, p.time_update, b, o);
    lemma_i64_field(q2, p.time_msc, b, o);
    lemma_i64_field(q1, p.time, b, o);
    assert(q0 + q1 =~= q1);
    lemma_i64_field(q0, p.ticket, b, o);
}

/// The image of an open-position record takes the record's size.
pub proof fn lemma_position_image_len(p: TradePosition)
    ensures
        position_image(p).len() == POSITION_LEN,
{
    broadcast use group_field_lens;

    reveal(position_image);
}

/// Whether two values of `TradePosition` hold the same fields, texts compared by their characters.
pub open spec fn same_position(a: TradePosition, b: TradePosition) -> bool {
    &&& a.ticket == b.ticket
    &&& a.time == b.time
    &&& a.time_msc == b.time_msc
    &&& a.time_update == b.time_update
    &&& a.time_update_msc == b.time_update_msc
    &&& a.type_ == b.type_
    &&& a.magic == b.magic
    &&& a.identifier == b.identifier
    &&& a.reason == b.reason
    &&& a.volume == b.volume
    &&& a.price_open == b.price_open
    &&& a.price_current == b.price_current
    &&& a.price_sl == b.price_sl
    &&& a.price_tp == b.price_tp
    &&& a.swap == b.swap
    &&& a.profit == b.profit
    &&& a.symbol@ == b.symbol@
    &&& a.comment@ == b.comment@
    &&& a.external_id@ == b.external_id@
}

/// A response that holds the count `count` in four bytes and then the image of each record of `rs`
/// in turn.
pub open spec fn positions_response(count: int, rs: Seq<TradePosition>) -> Seq<u8> {
    list_response(count, rs, |r: TradePosition| position_image(r))
}

/// The positions of a response written as a count and then each record's image in turn, with any
/// bytes after them, are read back by [`crate::client::parse_positions_response`]: what its
/// contract allows it to return for these bytes holds as many records as the count states, or only
/// the whole records written when the count claims more, and at each place the record written
/// there.
pub proof fn law_positions_response_round_trip(
    count: int,
    rs: Seq<TradePosition>,
    post: Seq<u8>,
    v: Seq<TradePosition>,
)
    requires
        0 <= count < 0x1_0000_0000,
        count <= rs.len() || post.len() < POSITION_LEN,
        forall|j: int| 0 <= j < rs.len() ==> #[trigger] position_fits(rs[j]),
        v.len() == records_in(positions_response(count, rs) + post, POSITION_LEN as int),
        forall|j: int|
            0 <= j < v.len() ==> #[trigger] position_at(
                v[j],
                positions_response(count, rs) + post,
                4 + j * POSITION_LEN,
            ),
    ensures
        v.len() == (if count <= rs.len() { count } else { rs.len() as int }),
        forall|j: int| 0 <= j < v.len() ==> #[trigger] same_position(v[j], rs[j]),
{
    let f = |r: TradePosition| position_image(r);
    let data = positions_response(count, rs) + post;
    assert forall|t: TradePosition| #[trigger] f(t).len() == POSITION_LEN by {
        lemma_position_image_len(t);
    }
    lemma_list_response(count, rs, f, POSITION_LEN as int, post);
    lemma_records_in_list(data, count, rs.len() as int, POSITION_LEN as int, post.len() as int);
    assert forall|j: int| 0 <= j < v.len() implies #[trigger] same_position(v[j], rs[j]) by {
        let o = 4 + j * POSITION_LEN;
        assert(agrees_at(f(rs[j]), data, o));
        lemma_position_image_len(rs[j]);
        lemma_split_at(position_image(rs[j]), data, o);
        assert(position_at(v[j], data, o));
        law_position_round_trip(rs[j], v[j], data.take(o), data.skip(o + POSITION_LEN));
    }
}

/// An order record written field by field, in the order the terminal sends it: ticket, time setup,
/// time setup msc, time done, time done msc, time expiration, type, type time, type filling, state,
/// magic, position id, position by id, reason, volume initial, volume current, price open, price
/// current, price sl, price tp, price stoplimit, symbol, comment, external id.
#[verifier::opaque]
pub open spec fn order_image(r: TradeOrder) -> Seq<u8> {
    field_i64(r.ticket)
        + field_i64(r.time_setup)
        + field_i64(r.time_setup_msc)
        + field_i64(r.time_done)
        + field_i64(r.time_done_msc)
        + field_i64(r.time_expiration)
        + field_i32(r.type_)
        + field_i32(r.type_time)
        + field_i32(r.type_filling)
        + field_i32(r.state)
        + field_i64(r.magic)
        + field_i64(r.position_id)
        + field_i64(r.position_by_id)
        + field_i32(r.reason)
        + field_u64(r.volume_initial as int)
        + field_u64(r.volume_current as int)
        + field_u64(r.price_open as int)
        + field_u64(r.price_current as int)
        + field_u64(r.price_sl as int)
        + field_u64(r.price_tp as int)
        + field_u64(r.price_stoplimit as int)
        + field_text(r.symbol@, 64)
        + field_text(r.comment@, 64)
        + field_text(r.external_id@, 64)
}

/// Whether every field of an order record fits its place on the wire: the counts and codes sent in
/// four bytes are within their range and the texts fit their slots.
pub open spec fn order_fits(r: TradeOrder) -> bool {
    &&& fits_slot(r.symbol@, 64)
    &&& fits_slot(r.comment@, 64)
    &&& fits_slot(r.external_id@, 64)
}

/// An order record written field by field, with any bytes before and after it, is decoded back to
/// the same record: each field is read from the offset its predecessors put it at.
#[verifier::spinoff_prover]
pub proof fn law_order_round_trip(r: TradeOrder, x: TradeOrder, pre: Seq<u8>, post: Seq<u8>)
    requires
        order_fits(r),
        order_at(x, pre + order_image(r) + post, pre.len() as int),
    ensures
        x.ticket == r.ticket,
        x.time_setup == r.time_setup,
        x.time_setup_msc == r.time_setup_msc,
        x.time_done == r.time_done,
        x.time_done_msc == r.time_done_msc,
        x.time_expiration == r.time_expiration,
        x.type_ == r.type_,
        x.type_time == r.type_time,
        x.type_filling == r.type_filling,
        x.state == r.state,
        x.magic == r.magic,
        x.position_id == r.position_id,
        x.position_by_id == r.position_by_id,
        x.reason == r.reason,
        x.volume_initial == r.volume_initial,
        x.volume_current == r.volume_current,
        x.price_open == r.price_open,
        x.price_current == r.price_current,
        x.price_sl == r.price_sl,
        x.price_tp == r.price_tp,
        x.price_stoplimit == r.price_stoplimit,
        x.symbol@ == r.symbol@,
        x.comment@ == r.comment@,
        x.external_id@ == r.external_id@,
{
    broadcast use group_field_lens;

    let b = pre + order_image(r) + post;
    let o = pre.len() as int;
    let q0 = Seq::<u8>::empty();
    let q1 = field_i64(r.ticket);
    let q2 = q1 + field_i64(r.time_setup);
    let q3 = q2 + field_i64(r.time_setup_msc);
    let q4 = q3 + field_i64(r.time_done);
    let q5 = q4 + field_i64(r.time_done_msc);
    let q6 = q5 + field_i64(r.time_expiration);
    let q7 = q6 + field_i32(r.type_);
    let q8 = q7 + field_i32(r.type_time);
    let q9 = q8 + field_i32(r.type_filling);
    let q10 = q9 + field_i32(r.state);
    let q11 = q10 + field_i64(r.magic);
    let q12 = q11 + field_i64(r.position_id);
    let q13 = q12 + field_i64(r.position_by_id);
    let q14 = q13 + field_i32(r.reason);
    let q15 = q14 + field_u64(r.volume_initial as int);
    let q16 = q15 + field_u64(r.volume_current as int);
    let q17 = q16 + field_u64(r.price_open as int);
    let q18 = q17 + field_u64(r.price_current as int);
    let q19 = q18 + field_u64(r.price_sl as int);
    let q20 = q19 + field_u64(r.price_tp as int);
    let q21 = q20 + field_u64(r.price_stoplimit as int);
    let q22 = q21 + field_text(r.symbol@, 64);
    let q23 = q22 + field_text(r.comment@, 64);
    lemma_window(order_image(r), pre, post);
    assert(order_image(r) == q23 + field_text(r.external_id@, 64)) by {
        reveal(order_image);
    }
    lemma_text_field(q23, r.external_id@, 64, b, o);
    lemma_text_field(q22, r.comment@, 64, b, o);
    lemma_text_field(q21, r.symbol@, 64, b, o);
    lemma_u64_field(q20, r.price_stoplimit as int, b, o);
    lemma_u64_field(q19, r.price_tp as int, b, o);
    lemma_u64_field(q18, r.price_sl as int, b, o);
    lemma_u64_field(q17, r.price_current as int, b, o);
    lemma_u64_field(q16, r.price_open as int, b, o);
    lemma_u64_field(q15, r.volume_current as int, b, o);
    lemma_u64_field(q14, r.volume_initial as int, b, o);
    lemma_i32_field(q13, r.reason, b, o);
    lemma_i64_field(q12, r.position_by_id, b, o);
    lemma_i64_field(q11, r.position_id, b, o);
    lemma_i64_field(q10, r.magic, b, o);
    lemma_i32_field(q9, r.state, b, o);
    lemma_i32_field(q8, r.type_filling, b, o);
    lemma_i32_field(q7, r.type_time, b, o);
    lemma_i32_field(q6, r.type_, b, o);
    lemma_i64_field(q5, r.time_expiration, b, o);
    lemma_i64_field(q4, r.time_done_msc, b, o);
    lemma_i64_field(q3, r.time_done, b, o);
    lemma_i64_field(q2, r.time_setup_msc, b, o);
    lemma_i64_field(q1, r.time_setup, b, o);
    assert(q0 + q1 =~= q1);
    lemma_i64_field(q0, r.ticket, b, o);
}

/// The image of an order record takes the record's size.
pub proof fn lemma_order_image_len(r: TradeOrder)
    ensures
        order_image(r).len() == ORDER_LEN,
{
    broadcast use group_field_lens;

    reveal(order_image);
}

/// Whether two values of `TradeOrder` hold the same fields, texts compared by their characters.
pub open spec fn same_order(a: TradeOrder, b: TradeOrder) -> bool {
    &&& a.ticket == b.ticket
    &&& a.time_setup == b.time_setup
    &&& a.time_setup_msc == b.time_setup_msc
    &&& a.time_done == b.time_done
    &&& a.time_done_msc == b.time_done_msc
    &&& a.time_expiration == b.time_expiration
    &&& a.type_ == b.type_
    &&& a.type_time == b.type_time
    &&& a.type_filling == b.type_filling
    &&& a.state == b.state
    &&& a.magic == b.magic
    &&& a.position_id == b.position_id
    &&& a.position_by_id == b.position_by_id
    &&& a.reason == b.reason
    &&& a.volume_initial == b.volume_initial
    &&& a.volume_current == b.volume_current
    &&& a.price_open == b.price_open
    &&& a.price_current == b.price_current
    &&& a.price_sl == b.price_sl
    &&& a.price_tp == b.price_tp
    &&& a.price_stoplimit == b.price_stoplimit
    &&& a.symbol@ == b.symbol@
    &&& a.comment@ == b.comment@
    &&& a.external_id@ == b.external_id@
}

/// A response that holds the count `count` in four bytes and then the image of each record of `rs`
/// in turn.
pub open spec fn orders_response(count: int, rs: Seq<TradeOrder>) -> Seq<u8> {
    list_response(count, rs, |r: TradeOrder| order_image(r))
}

/// The orders of a response written as a count and then each record's image in turn, with any bytes
/// after them, are read back by [`crate::client::parse_orders_response`]: what its contract allows
/// it to return for these bytes holds as many records as the count states, or only the whole
/// records written when the count claims more, and at each place the record written there.
pub proof fn law_orders_response_round_trip(
    count: int,
    rs: Seq<TradeOrder>,
    post: Seq<u8>,
    v: Seq<TradeOrder>,
)
    requires
        0 <= count < 0x1_0000_0000,
        count <= rs.len() || post.len() < ORDER_LEN,
        forall|j: int| 0 <= j < rs.len() ==> #[trigger] order_fits(rs[j]),
        v.len() == records_in(orders_response(count, rs) + post, ORDER_LEN as int),
        forall|j: int|
            0 <= j < v.len() ==> #[trigger] order_at(
                v[j],
                orders_response(count, rs) + post,
                4 + j * ORDER_LEN,
            ),
    ensures
        v.len() == (if count <= rs.len() { count } else { rs.len() as int }),
        forall|j: int| 0 <= j < v.len() ==> #[trigger] same_order(v[j], rs[j]),
{
    let f = |r: TradeOrder| order_image(r);
    let data = orders_response(count, rs) + post;
    assert forall|t: TradeOrder| #[trigger] f(t).len() == ORDER_LEN by {
        lemma_order_image_len(t);
    }
    lemma_list_response(count, rs, f, ORDER_LEN as int, post);
    lemma_records_in_list(data, count, rs.len() as int, ORDER_LEN as int, post.len() as int);
    assert forall|j: int| 0 <= j < v.len() implies #[trigger] same_order(v[j], rs[j]) by {
        let o = 4 + j * ORDER_LEN;
        assert(agrees_at(f(rs[j]), data, o));
        lemma_order_image_len(rs[j]);
        lemma_split_at(order_image(rs[j]), data, o);
        assert(order_at(v[j], data, o));
        law_order_round_trip(rs[j], v[j], data.take(o), data.skip(o + ORDER_LEN));
    }
}

/// A deal record written field by field, in the order the terminal sends it: ticket, order, time,
/// time msc, type, entry, magic, position id, reason, volume, price, commission, swap, profit, fee,
/// symbol, comment, external id.
#[verifier::opaque]
pub open spec fn deal_image(d: TradeDeal) -> Seq<u8> {
    field_i64(d.ticket)
        + field_i64(d.order)
        + field_i64(d.time)
        + field_i64(d.time_msc)
        + field_i32(d.type_)
        + field_i32(d.entry)
        + field_i64(d.magic)
        + field_i64(d.position_id)
        + field_i32(d.reason)
        + field_u64(d.volume as int)
        + field_u64(d.price as int)
        + field_u64(d.commission as int)
        + field_u64(d.swap as int)
        + field_u64(d.profit as int)
        + field_u64(d.fee as int)
        + field_text(d.symbol@, 64)
        + field_text(d.comment@, 64)
        + field_text(d.external_id@, 64)
}

/// Whether every field of a deal record fits its place on the wire: the counts and codes sent in
/// four bytes are within their range and the texts fit their slots.
pub open spec fn deal_fits(d: TradeDeal) -> bool {
    &&& fits_slot(d.symbol@, 64)
    &&& fits_slot(d.comment@, 64)
    &&& fits_slot(d.external_id@, 64)
}

/// A deal record written field by field, with any bytes before and after it, is decoded back to the
/// same record: each field is read from the offset its predecessors put it at.
#[verifier::spinoff_prover]
pub proof fn law_deal_round_trip(d: TradeDeal, x: TradeDeal, pre: Seq<u8>, post: Seq<u8>)
    requires
        deal_fits(d),
        deal_at(x, pre + deal_image(d) + post, pre.len() as int),
    ensures
        x.ticket == d.ticket,
        x.order == d.order,
        x.time == d.time,
        x.time_msc == d.time_msc,
        x.type_ == d.type_,
        x.entry == d.entry,
        x.magic == d.magic,
        x.position_id == d.position_id,
        x.reason == d.reason,
        x.volume == d.volume,
        x.price == d.price,
        x.commission == d.commission,
        x.swap == d.swap,
        x.profit == d.profit,
        x.fee == d.fee,
        x.symbol@ == d.symbol@,
        x.comment@ == d.comment@,
        x.external_id@ == d.external_id@,
{
    broadcast use group_field_lens;

    let b = pre + deal_image(d) + post;
    let o = pre.len() as int;
    let q0 = Seq::<u8>::empty();
    let q1 = field_i64(d.ticket);
    let q2 = q1 + field_i64(d.order);
    let q3 = q2 + field_i64(d.time);
    let q4 = q3 + field_i64(d.time_msc);
    let q5 = q4 + field_i32(d.type_);
    let q6 = q5 + field_i32(d.entry);
    let q7 = q6 + field_i64(d.magic);
    let q8 = q7 + field_i64(d.position_id);
    let q9 = q8 + field_i32(d.reason);
    let q10 = q9 + field_u64(d.volume as int);
    let q11 = q10 + field_u64(d.price as int);
    let q12 = q11 + field_u64(d.commission as int);
    let q13 = q12 + field_u64(d.swap as int);
    let q14 = q13 + field_u64(d.profit as int);
    let q15 = q14 + field_u64(d.fee as int);
    let q16 = q15 + field_text(d.symbol@, 64);
    let q17 = q16 + field_text(d.comment@, 64);
    lemma_window(deal_image(d), pre, post);
    assert(deal_image(d) == q17 + field_text(d.external_id@, 64)) by {
        reveal(deal_image);
    }
    lemma_text_field(q17, d.external_id@, 64, b, o);
    lemma_text_field(q16, d.comment@, 64, b, o);
    lemma_text_field(q15, d.symbol@, 64, b, o);
    lemma_u64_field(q14, d.fee as int, b, o);
    lemma_u64_field(q13, d.profit as int, b, o);
    lemma_u64_field(q12, d.swap as int, b, o);
    lemma_u64_field(q11, d.commission as int, b, o);
    lemma_u64_field(q10, d.price as int, b, o);
    lemma_u64_field(q9, d.volume as int, b, o);
    lemma_i32_field(q8, d.reason, b, o);
    lemma_i64_field(q7, d.position_id, b, o);
    lemma_i64_field(q6, d.magic, b, o);
    lemma_i32_field(q5, d.entry, b, o);
    lemma_i32_field(q4, d.type_, b, o);
    lemma_i64_field(q3, d.time_msc, b, o);
    lemma_i64_field(q2, d.time, b, o);
    lemma_i64_field(q1, d.order, b, o);
    assert(q0 + q1 =~= q1);
    lemma_i64_field(q0, d.ticket, b, o);
}

/// The image of a deal record takes the record's size.
pub proof fn lemma_deal_image_len(d: TradeDeal)
    ensures
        deal_image(d).len() == DEAL_LEN,
{
    broadcast use group_field_lens;

    reveal(deal_image);
}

/// Whether two values of `TradeDeal` hold the same fields, texts compared by their characters.
pub open spec fn same_deal(a: TradeDeal, b: TradeDeal) -> bool {
    &&& a.ticket == b.ticket
    &&& a.order == b.order
    &&& a.time == b.time
    &&& a.time_msc == b.time_msc
    &&& a.type_ == b.type_
    &&& a.entry == b.entry
    &&& a.magic == b.magic
    &&& a.position_id == b.position_id
    &&& a.reason == b.reason
    &&& a.volume == b.volume
    &&& a.price == b.price
    &&& a.commission == b.commission
    &&& a.swap == b.swap
    &&& a.profit == b.profit
    &&& a.fee == b.fee
    &&& a.symbol@ == b.symbol@
    &&& a.comment@ == b.comment@
    &&& a.external_id@ == b.external_id@
}

/// A response that holds the count `count` in four bytes and then the image of each record of `rs`
/// in turn.
pub open spec fn deals_response(count: int, rs: Seq<TradeDeal>) -> Seq<u8> {
    list_response(count, rs, |r: TradeDeal| deal_image(r))
}

/// The deals of a response written as a count and then each record's image in turn, with any bytes
/// after them, are read back by [`crate::client::parse_deals_response`]: what its contract allows
/// it to return for these bytes holds as many records as the count states, or only the whole
/// records written when the count claims more, and at each place the record written there.
pub proof fn law_deals_response_round_trip(
    count: int,
    rs: Seq<TradeDeal>,
    post: Seq<u8>,
    v: Seq<TradeDeal>,
)
    requires
        0 <= count < 0x1_0000_0000,
        count <= rs.len() || post.len() < DEAL_LEN,
        forall|j: int| 0 <= j < rs.len() ==> #[trigger] deal_fits(rs[j]),
        v.len() == records_in(deals_response(count, rs) + post, DEAL_LEN as int),
        forall|j: int|
            0 <= j < v.len() ==> #[trigger] deal_at(
                v[j],
                deals_response(count, rs) + post,
                4 + j * DEAL_LEN,
            ),
    ensures
        v.len() == (if count <= rs.len() { count } else { rs.len() as int }),
        forall|j: int| 0 <= j < v.len() ==> #[trigger] same_deal(v[j], rs[j]),
{
    let f = |r: TradeDeal| deal_image(r);
    let data = deals_response(count, rs) + post;
    assert forall|t: TradeDeal| #[trigger] f(t).len() == DEAL_LEN by {
        lemma_deal_image_len(t);
    }
    lemma_list_response(count, rs, f, DEAL_LEN as int, post);
    lemma_records_in_list(data, count, rs.len() as int, DEAL_LEN as int, post.len() as int);
    assert forall|j: int| 0 <= j < v.len() implies #[trigger] same_deal(v[j], rs[j]) by {
        let o = 4 + j * DEAL_LEN;
        assert(agrees_at(f(rs[j]), data, o));
        lemma_deal_image_len(rs[j]);
        lemma_split_at(deal_image(rs[j]), data, o);
        assert(deal_at(v[j], data, o));
        law_deal_round_trip(rs[j], v[j], data.take(o), data.skip(o + DEAL_LEN));
    }
}

/// A bar written field by field, in the order the terminal sends it: time, open, high, low, close,
/// tick volume, spread, real volume.
#[verifier::opaque]
pub open spec fn rate_image(r: Rate) -> Seq<u8> {
    field_i64(r.time)
        + field_u64(r.open as int)
        + field_u64(r.high as int)
        + field_u64(r.low as int)
        + field_u64(r.close as int)
        + field_u64(r.tick_volume as int)
        + field_i32(r.spread)
        + field_u64(r.real_volume as int)
}

/// A bar written field by field, with any bytes before and after it, is decoded back to the same
/// record: each field is read from the offset its predecessors put it at.
pub proof fn law_rate_round_trip(r: Rate, x: Rate, pre: Seq<u8>, post: Seq<u8>)
    requires
        rate_at(x, pre + rate_image(r) + post, pre.len() as int),
    ensures
        x == r,
{
    broadcast use group_field_lens;

    let b = pre + rate_image(r) + post;
    let o = pre.len() as int;
    let q0 = Seq::<u8>::empty();
    let q1 = field_i64(r.time);
    let q2 = q1 + field_u64(r.open as int);
    let q3 = q2 + field_u64(r.high as int);
    let q4 = q3 + field_u64(r.low as int);
    let q5 = q4 + field_u64(r.close as int);
    let q6 = q5 + field_u64(r.tick_volume as int);
    let q7 = q6 + field_i32(r.spread);
    lemma_window(rate_image(r), pre, post);
    assert(rate_image(r) == q7 + field_u64(r.real_volume as int)) by {
        reveal(rate_image);
    }
    lemma_u64_field(q7, r.real_volume as int, b, o);
    lemma_i32_field(q6, r.spread, b, o);
    lemma_u64_field(q5, r.tick_volume as int, b, o);
    lemma_u64_field(q4, r.close as int, b, o);
    lemma_u64_field(q3, r.low as int, b, o);
    lemma_u64_field(q2, r.high as int, b, o);
    lemma_u64_field(q1, r.open as int, b, o);
    assert(q0 + q1 =~= q1);
    lemma_i64_field(q0, r.time, b, o);
}

/// The image of a bar takes the record's size.
pub proof fn lemma_rate_image_len(r: Rate)
    ensures
        rate_image(r).len() == RATE_LEN,
{
    broadcast use group_field_lens;

    reveal(rate_image);
}

/// A response that holds the count `count` in four bytes and then the image of each record of `rs`
/// in turn.
pub open spec fn rates_response(count: int, rs: Seq<Rate>) -> Seq<u8> {
    list_response(count, rs, |r: Rate| rate_image(r))
}

/// The bars of a response written as a count and then each record's image in turn, with any bytes
/// after them, are read back by [`crate::client::parse_rates_response`]: what its contract allows
/// it to return for these bytes holds as many records as the count states, or only the whole
/// records written when the count claims more, and at each place the record written there.
pub proof fn law_rates_response_round_trip(
    count: int,
    rs: Seq<Rate>,
    post: Seq<u8>,
    v: Seq<Rate>,
)
    requires
        0 <= count < 0x1_0000_0000,
        count <= rs.len() || post.len() < RATE_LEN,
        v.len() == records_in(rates_response(count, rs) + post, RATE_LEN as int),
        forall|j: int|
            0 <= j < v.len() ==> #[trigger] rate_at(
                v[j],
                rates_response(count, rs) + post,
                4 + j * RATE_LEN,
            ),
    ensures
        v.len() == (if count <= rs.len() { count } else { rs.len() as int }),
        forall|j: int| 0 <= j < v.len() ==> v[j] == rs[j],
{
    let f = |r: Rate| rate_image(r);
    let data = rates_response(count, rs) + post;
    assert forall|t: Rate| #[trigger] f(t).len() == RATE_LEN by {
        lemma_rate_image_len(t);
    }
    lemma_list_response(count, rs, f, RATE_LEN as int, post);
    lemma_records_in_list(data, count, rs.len() as int, RATE_LEN as int, post.len() as int);
    assert forall|j: int| 0 <= j < v.len() implies v[j] == rs[j] by {
        let o = 4 + j * RATE_LEN;
        assert(agrees_at(f(rs[j]), data, o));
        lemma_rate_image_len(rs[j]);
        lemma_split_at(rate_image(rs[j]), data, o);
        assert(rate_at(v[j], data, o));
        law_rate_round_trip(rs[j], v[j], data.take(o), data.skip(o + RATE_LEN));
    }
}

/// A tick record written field by field, in the order the terminal sends it: time, bid, ask, last,
/// volume, time msc, flags, volume real.
#[verifier::opaque]
pub open spec fn tick_image(t: Tick) -> Seq<u8> {
    field_i64(t.time)
        + field_u64(t.bid as int)
        + field_u64(t.ask as int)
        + field_u64(t.last as int)
        + field_u64(t.volume as int)
        + field_i64(t.time_msc)
        + field_u32(t.flags as int)
        + field_u64(t.volume_real as int)
}

/// A tick record written field by field, with any bytes before and after it, is decoded back to the
/// same record: each field is read from the offset its predecessors put it at.
pub proof fn law_tick_round_trip(t: Tick, x: Tick, pre: Seq<u8>, post: Seq<u8>)
    requires
        tick_at(x, pre + tick_image(t) + post, pre.len() as int),
    ensures
        x == t,
{
    broadcast use group_field_lens;

    let b = pre + tick_image(t) + post;
    let o = pre.len() as int;
    let q0 = Seq::<u8>::empty();
    let q1 = field_i64(t.time);
    let q2 = q1 + field_u64(t.bid as int);
    let q3 = q2 + field_u64(t.ask as int);
    let q4 = q3 + field_u64(t.last as int);
    let q5 = q4 + field_u64(t.volume as int);
    let q6 = q5 + field_i64(t.time_msc);
    let q7 = q6 + field_u32(t.flags as int);
    lemma_window(tick_image(t), pre, post);
    assert(tick_image(t) == q7 + field_u64(t.volume_real as int)) by {
        reveal(tick_image);
    }
    lemma_u64_field(q7, t.volume_real as int, b, o);
    lemma_u32_field(q6, t.flags as int, b, o);
    lemma_i64_field(q5, t.time_msc, b, o);
    lemma_u64_field(q4, t.volume as int, b, o);
    lemma_u64_field(q3, t.last as int, b, o);
    lemma_u64_field(q2, t.ask as int, b, o);
    lemma_u64_field(q1, t.bid as int, b, o);
    assert(q0 + q1 =~= q1);
    lemma_i64_field(q0, t.time, b, o);
}

/// The image of a tick record takes the record's size.
pub proof fn lemma_tick_image_len(t: Tick)
    ensures
        tick_image(t).len() == TICK_LEN,
{
    broadcast use group_field_lens;

    reveal(tick_image);
}

/// A response that holds the count `count` in four bytes and then the image of each record of `rs`
/// in turn.
pub open spec fn ticks_response(count: int, rs: Seq<Tick>) -> Seq<u8> {
    list_response(count, rs, |r: Tick| tick_image(r))
}

/// The ticks of a response written as a count and then each record's image in turn, with any bytes
/// after them, are read back by [`crate::client::parse_ticks_response`]: what its contract allows
/// it to return for these bytes holds as many records as the count states, or only the whole
/// records written when the count claims more, and at each place the record written there.
pub proof fn law_ticks_response_round_trip(
    count: int,
    rs: Seq<Tick>,
    post: Seq<u8>,
    v: Seq<Tick>,
)
    requires
        0 <= count < 0x1_0000_0000,
        count <= rs.len() || post.len() < TICK_LEN,
        v.len() == records_in(ticks_response(count, rs) + post, TICK_LEN as int),
        forall|j: int|
            0 <= j < v.len() ==> #[trigger] tick_at(
                v[j],
                ticks_response(count, rs) + post,
                4 + j * TICK_LEN,
            ),
    ensures
        v.len() == (if count <= rs.len() { count } else { rs.len() as int }),
        forall|j: int| 0 <= j < v.len() ==> v[j] == rs[j],
{
    let f = |r: Tick| tick_image(r);
    let data = ticks_response(count, rs) + post;
    assert forall|t: Tick| #[trigger] f(t).len() == TICK_LEN by {
        lemma_tick_image_len(t);
    }
    lemma_list_response(count, rs, f, TICK_LEN as int, post);
    lemma_records_in_list(data, count, rs.len() as int, TICK_LEN as int, post.len() as int);
    assert forall|j: int| 0 <= j < v.len() implies v[j] == rs[j] by {
        let o = 4 + j * TICK_LEN;
        assert(agrees_at(f(rs[j]), data, o));
        lemma_tick_image_len(rs[j]);
        lemma_split_at(tick_image(rs[j]), data, o);
        assert(tick_at(v[j], data, o));
        law_tick_round_trip(rs[j], v[j], data.take(o), data.skip(o + TICK_LEN));
    }
}

/// A market-depth level written field by field, in the order the terminal sends it: type, price,
/// volume, volume real.
#[verifier::opaque]
pub open spec fn book_image(k: BookInfo) -> Seq<u8> {
    field_i64(k.type_)
        + field_u64(k.price as int)
        + field_i64(k.volume)
        + field_u64(k.volume_real as int)
}

/// A market-depth level written field by field, with any bytes before and after it, is decoded back
/// to the same record: each field is read from the offset its predecessors put it at.
pub proof fn law_book_round_trip(k: BookInfo, x: BookInfo, pre: Seq<u8>, post: Seq<u8>)
    requires
        book_at(x, pre + book_image(k) + post, pre.len() as int),
    ensures
        x == k,
{
    broadcast use group_field_lens;

    let b = pre + book_image(k) + post;
    let o = pre.len() as int;
    let q0 = Seq::<u8>::empty();
    let q1 = field_i64(k.type_);
    let q2 = q1 + field_u64(k.price as int);
    let q3 = q2 + field_i64(k.volume);
    lemma_window(book_image(k), pre, post);
    assert(book_image(k) == q3 + field_u64(k.volume_real as int)) by {
        reveal(book_image);
    }
    lemma_u64_field(q3, k.volume_real as int, b, o);
    lemma_i64_field(q2, k.volume, b, o);
    lemma_u64_field(q1, k.price as int, b, o);
    assert(q0 + q1 =~= q1);
    lemma_i64_field(q0, k.type_, b, o);
}

/// The image of a market-depth level takes the record's size.
pub proof fn lemma_book_image_len(k: BookInfo)
    ensures
        book_image(k).len() == BOOK_LEN,
{
    broadcast use group_field_lens;

    reveal(book_image);
}

/// A response that holds the count `count` in four bytes and then the image of each record of `rs`
/// in turn.
pub open spec fn book_levels_response(count: int, rs: Seq<BookInfo>) -> Seq<u8> {
    list_response(count, rs, |r: BookInfo| book_image(r))
}

/// The levels of a response written as a count and then each record's image in turn, with any bytes
/// after them, are read back by [`crate::client::parse_book_response`]: what its contract allows it
/// to return for these bytes holds as many records as the count states, or only the whole records
/// written when the count claims more, and at each place the record written there.
pub proof fn law_book_levels_response_round_trip(
    count: int,
    rs: Seq<BookInfo>,
    post: Seq<u8>,
    v: Seq<BookInfo>,
)
    requires
        0 <= count < 0x1_0000_0000,
        count <= rs.len() || post.len() < BOOK_LEN,
        v.len() == records_in(book_levels_response(count, rs) + post, BOOK_LEN as int),
        forall|j: int|
            0 <= j < v.len() ==> #[trigger] book_at(
                v[j],
                book_levels_response(count, rs) + post,
                4 + j * BOOK_LEN,
            ),
    ensures
        v.len() == (if count <= rs.len() { count } else { rs.len() as int }),
        forall|j: int| 0 <= j < v.len() ==> v[j] == rs[j],
{
    let f = |r: BookInfo| book_image(r);
    let data = book_levels_response(count, rs) + post;
    assert forall|t: BookInfo| #[trigger] f(t).len() == BOOK_LEN by {
        lemma_book_image_len(t);
    }
    lemma_list_response(count, rs, f, BOOK_LEN as int, post);
    lemma_records_in_list(data, count, rs.len() as int, BOOK_LEN as int, post.len() as int);
    assert forall|j: int| 0 <= j < v.len() implies v[j] == rs[j] by {
        let o = 4 + j * BOOK_LEN;
        assert(agrees_at(f(rs[j]), data, o));
        lemma_book_image_len(rs[j]);
        lemma_split_at(book_image(rs[j]), data, o);
        assert(book_at(v[j], data, o));
        law_book_round_trip(rs[j], v[j], data.take(o), data.skip(o + BOOK_LEN));
    }
}

/// A trade result written field by field, in the order the terminal sends it: retcode, deal, order,
/// volume, price, bid, ask, comment, request id, retcode external.
#[verifier::opaque]
pub open spec fn trade_result_image(r: TradeResult) -> Seq<u8> {
    field_i32(r.retcode)
        + field_i64(r.deal)
        + field_i64(r.order)
        + field_u64(r.volume as int)
        + field_u64(r.price as int)
        + field_u64(r.bid as int)
        + field_u64(r.ask as int)
        + field_text(r.comment@, 200)
        + field_u32(r.request_id as int)
        + field_i32(r.retcode_external)
}

/// Whether every field of a trade result fits its place on the wire: the counts and codes sent in
/// four bytes are within their range and the texts fit their slots.
pub open spec fn trade_result_fits(r: TradeResult) -> bool {
    &&& fits_slot(r.comment@, 200)
    &&& 0 <= r.request_id < 0x1_0000_0000
}

/// A trade result written field by field, with any bytes before and after it, is decoded back to
/// the same record: each field is read from the offset its predecessors put it at.
pub proof fn law_trade_result_round_trip(
    r: TradeResult,
    x: TradeResult,
    pre: Seq<u8>,
    post: Seq<u8>,
)
    requires
        trade_result_fits(r),
        trade_result_at(x, pre + trade_result_image(r) + post, pre.len() as int),
    ensures
        x.retcode == r.retcode,
        x.deal == r.deal,
        x.order == r.order,
        x.volume == r.volume,
        x.price == r.price,
        x.bid == r.bid,
        x.ask == r.ask,
        x.comment@ == r.comment@,
        x.request_id == r.request_id,
        x.retcode_external == r.retcode_external,
{
    broadcast use group_field_lens;

    let b = pre + trade_result_image(r) + post;
    let o = pre.len() as int;
    let q0 = Seq::<u8>::empty();
    let q1 = field_i32(r.retcode);
    let q2 = q1 + field_i64(r.deal);
    let q3 = q2 + field_i64(r.order);
    let q4 = q3 + field_u64(r.volume as int);
    let q5 = q4 + field_u64(r.price as int);
    let q6 = q5 + field_u64(r.bid as int);
    let q7 = q6 + field_u64(r.ask as int);
    let q8 = q7 + field_text(r.comment@, 200);
    let q9 = q8 + field_u32(r.request_id as int);
    lemma_window(trade_result_image(r), pre, post);
    assert(trade_result_image(r) == q9 + field_i32(r.retcode_external)) by {
        reveal(trade_result_image);
    }
    lemma_i32_field(q9, r.retcode_external, b, o);
    lemma_u32_field(q8, r.request_id as int, b, o);
    lemma_text_field(q7, r.comment@, 200, b, o);
    lemma_u64_field(q6, r.ask as int, b, o);
    lemma_u64_field(q5, r.bid as int, b, o);
    lemma_u64_field(q4, r.price as int, b, o);
    lemma_u64_field(q3, r.volume as int, b, o);
    lemma_i64_field(q2, r.order, b, o);
    lemma_i64_field(q1, r.deal, b, o);
    assert(q0 + q1 =~= q1);
    lemma_i32_field(q0, r.retcode, b, o);
}

/// The image of a trade result takes the record's size.
pub proof fn lemma_trade_result_image_len(r: TradeResult)
    ensures
        trade_result_image(r).len() == TRADE_RESULT_LEN,
{
    broadcast use group_field_lens;

    reveal(trade_result_image);
}

/// Whether two values of `TradeResult` hold the same fields, texts compared by their characters.
pub open spec fn same_trade_result(a: TradeResult, b: TradeResult) -> bool {
    &&& a.retcode == b.retcode
    &&& a.deal == b.deal
    &&& a.order == b.order
    &&& a.volume == b.volume
    &&& a.price == b.price
    &&& a.bid == b.bid
    &&& a.ask == b.ask
    &&& a.comment@ == b.comment@
    &&& a.request_id == b.request_id
    &&& a.retcode_external == b.retcode_external
}

/// A trade-check result written field by field, in the order the terminal sends it: retcode,
/// balance, equity, profit, margin, margin free, margin level, comment.
#[verifier::opaque]
pub open spec fn check_result_image(c: TradeCheckResult) -> Seq<u8> {
    field_i32(c.retcode)
        + field_u64(c.balance as int)
        + field_u64(c.equity as int)
        + field_u64(c.profit as int)
        + field_u64(c.margin as int)
        + field_u64(c.margin_free as int)
        + field_u64(c.margin_level as int)
        + field_text(c.comment@, 200)
}

/// Whether every field of a trade-check result fits its place on the wire: the counts and codes
/// sent in four bytes are within their range and the texts fit their slots.
pub open spec fn check_result_fits(c: TradeCheckResult) -> bool {
    &&& fits_slot(c.comment@, 200)
}

/// A trade-check result written field by field, with any bytes before and after it, is decoded back
/// to the same record: each field is read from the offset its predecessors put it at.
pub proof fn law_check_result_round_trip(
    c: TradeCheckResult,
    x: TradeCheckResult,
    pre: Seq<u8>,
    post: Seq<u8>,
)
    requires
        check_result_fits(c),
        check_result_at(x, pre + check_result_image(c) + post, pre.len() as int),
    ensures
        x.retcode == c.retcode,
        x.balance == c.balance,
        x.equity == c.equity,
        x.profit == c.profit,
        x.margin == c.margin,
        x.margin_free == c.margin_free,
        x.margin_level == c.margin_level,
        x.comment@ == c.comment@,
{
    broadcast use group_field_lens;

    let b = pre + check_result_image(c) + post;
    let o = pre.len() as int;
    let q0 = Seq::<u8>::empty();
    let q1 = field_i32(c.retcode);
    let q2 = q1 + field_u64(c.balance as int);
    let q3 = q2 + field_u64(c.equity as int);
    let q4 = q3 + field_u64(c.profit as int);
    let q5 = q4 + field_u64(c.margin as int);
    let q6 = q5 + field_u64(c.margin_free as int);
    let q7 = q6 + field_u64(c.margin_level as int);
    lemma_window(check_result_image(c), pre, post);
    assert(check_result_image(c) == q7 + field_text(c.comment@, 200)) by {
        reveal(check_result_image);
    }
    lemma_text_field(q7, c.comment@, 200, b, o);
    lemma_u64_field(q6, c.margin_level as int, b, o);
    lemma_u64_field(q5, c.margin_free as int, b, o);
    lemma_u64_field(q4, c.margin as int, b, o);
    lemma_u64_field(q3, c.profit as int, b, o);
    lemma_u64_field(q2, c.equity as int, b, o);
    lemma_u64_field(q1, c.balance as int, b, o);
    assert(q0 + q1 =~= q1);
    lemma_i32_field(q0, c.retcode, b, o);
}

/// The image of a trade-check result takes the record's size.
pub proof fn lemma_check_result_image_len(c: TradeCheckResult)
    ensures
        check_result_image(c).len() == CHECK_RESULT_LEN,
{
    broadcast use group_field_lens;

    reveal(check_result_image);
}

/// Whether two values of `TradeCheckResult` hold the same fields, texts compared by their
/// characters.
pub open spec fn same_check_result(a: TradeCheckResult, b: TradeCheckResult) -> bool {
    &&& a.retcode == b.retcode
    &&& a.balance == b.balance
    &&& a.equity == b.equity
    &&& a.profit == b.profit
    &&& a.margin == b.margin
    &&& a.margin_free == b.margin_free
    &&& a.margin_level == b.margin_level
    &&& a.comment@ == b.comment@
}

/// A terminal record written field by field, in the order the terminal sends it: build, community
/// account, community connection, notifications enabled, mqid, connected, dlls allowed, trade
/// allowed, trade api disabled, email enabled, ftp enabled, max bars, padding, code page, padding,
/// ping last, padding, community balance, retransmission, padding, company, name, language, path,
/// data path, common data path; each padding byte is written as zero, and each text fills a slot
/// that the next one follows.
#[verifier::opaque]
pub open spec fn terminal_info_image(t: TerminalInfo) -> Seq<u8> {
    field_u16(t.build as int)
        + field_flag(t.community_account)
        + field_flag(t.community_connection)
        + field_flag(t.notifications_enabled)
        + field_flag(t.mqid)
        + field_flag(t.connected)
        + field_flag(t.dlls_allowed)
        + field_flag(t.trade_allowed)
        + field_flag(t.trade_api_disabled)
        + field_flag(t.email_enabled)
        + field_flag(t.ftp_enabled)
        + field_u32(t.max_bars as int)
        + field_pad(1)
        + field_u16(t.code_page as int)
        + field_pad(2)
        + field_u16(t.ping_last as int)
        + field_pad(1)
        + field_u64(t.community_balance as int)
        + field_u64(t.retransmission as int)
        + field_pad(1)
        + field_text(t.company@, 520)
        + field_text(t.name@, 520)
        + field_text(t.language@, 520)
        + field_text(t.path@, 520)
        + field_text(t.data_path@, 520)
        + field_text(t.common_data_path@, 520)
}

/// Whether every field of a terminal record fits its place on the wire: the numbers sent in two or
/// four bytes are within their range and the texts fit their slots.
pub open spec fn terminal_info_fits(t: TerminalInfo) -> bool {
    &&& 0 <= t.build < 0x1_0000
    &&& 0 <= t.max_bars < 0x1_0000_0000
    &&& 0 <= t.code_page < 0x1_0000
    &&& 0 <= t.ping_last < 0x1_0000
    &&& fits_slot(t.company@, 520)
    &&& fits_slot(t.name@, 520)
    &&& fits_slot(t.language@, 520)
    &&& fits_slot(t.path@, 520)
    &&& fits_slot(t.data_path@, 520)
    &&& fits_slot(t.common_data_path@, 520)
}

/// A terminal record written field by field, followed by any bytes, is decoded back to the same
/// record: each field is read from the offset its predecessors put it at, and each text runs to the
/// NUL that ends it within its slot.
#[verifier::spinoff_prover]
pub proof fn law_terminal_info_round_trip(t: TerminalInfo, x: TerminalInfo, post: Seq<u8>)
    requires
        terminal_info_fits(t),
        terminal_info_of(x, terminal_info_image(t) + post),
    ensures
        x.build == t.build,
        x.community_account == t.community_account,
        x.community_connection == t.community_connection,
        x.notifications_enabled == t.notifications_enabled,
        x.mqid == t.mqid,
        x.connected == t.connected,
        x.dlls_allowed == t.dlls_allowed,
        x.trade_allowed == t.trade_allowed,
        x.trade_api_disabled == t.trade_api_disabled,
        x.email_enabled == t.email_enabled,
        x.ftp_enabled == t.ftp_enabled,
        x.max_bars == t.max_bars,
        x.code_page == t.code_page,
        x.ping_last == t.ping_last,
        x.community_balance == t.community_balance,
        x.retransmission == t.retransmission,
        x.company@ == t.company@,
        x.name@ == t.name@,
        x.language@ == t.language@,
        x.path@ == t.path@,
        x.data_path@ == t.data_path@,
        x.common_data_path@ == t.common_data_path@,
{
    broadcast use group_field_lens;

    let b = terminal_info_image(t) + post;
    let o = 0int;
    let g0 = Seq::<u8>::empty();
    let g1 = field_u16(t.build as int) + field_flag(t.community_account)
        + field_flag(t.community_connection) + field_flag(t.notifications_enabled)
        + field_flag(t.mqid) + field_flag(t.connected) + field_flag(t.dlls_allowed)
        + field_flag(t.trade_allowed) + field_flag(t.trade_api_disabled)
        + field_flag(t.email_enabled) + field_flag(t.ftp_enabled) + field_u32(t.max_bars as int)
        + field_pad(1) + field_u16(t.code_page as int);
    let g2 = g1 + field_pad(2) + field_u16(t.ping_last as int) + field_pad(1)
        + field_u64(t.community_balance as int) + field_u64(t.retransmission as int) + field_pad(1)
        + field_text(t.company@, 520) + field_text(t.name@, 520) + field_text(t.language@, 520)
        + field_text(t.path@, 520) + field_text(t.data_path@, 520)
        + field_text(t.common_data_path@, 520);
    lemma_window(terminal_info_image(t), Seq::empty(), post);
    assert(Seq::<u8>::empty() + terminal_info_image(t) + post =~= b);
    assert(terminal_info_image(t) == g2) by {
        reveal(terminal_info_image);
    }
    lemma_terminal_info_part_2(t, g1, b, o);
    assert(g0 + field_u16(t.build as int) =~= field_u16(t.build as int));
    lemma_terminal_info_part_1(t, g0, b, o);
}

/// The fields build, community account, community connection, notifications enabled, mqid,
/// connected, dlls allowed, trade allowed, trade api disabled, email enabled, ftp enabled, max
/// bars, code page of a terminal record, written after the `c` bytes before them, are read at their
/// offsets.
proof fn lemma_terminal_info_part_1(t: TerminalInfo, c: Seq<u8>, b: Seq<u8>, o: int)
    requires
        terminal_info_fits(t),
        c.len() == 0,
        agrees_at(c + field_u16(t.build as int) + field_flag(t.community_account)
            + field_flag(t.community_connection) + field_flag(t.notifications_enabled)
            + field_flag(t.mqid) + field_flag(t.connected) + field_flag(t.dlls_allowed)
            + field_flag(t.trade_allowed) + field_flag(t.trade_api_disabled)
            + field_flag(t.email_enabled) + field_flag(t.ftp_enabled) + field_u32(t.max_bars as int)
            + field_pad(1) + field_u16(t.code_page as int), b, o),
    ensures
        agrees_at(c, b, o),
        le_u16(b, o) == t.build,
        (b[o + 2] != 0) == t.community_account,
        (b[o + 3] != 0) == t.community_connection,
        (b[o + 4] != 0) == t.notifications_enabled,
        (b[o + 5] != 0) == t.mqid,
        (b[o + 6] != 0) == t.connected,
        (b[o + 7] != 0) == t.dlls_allowed,
        (b[o + 8] != 0) == t.trade_allowed,
        (b[o + 9] != 0) == t.trade_api_disabled,
        (b[o + 10] != 0) == t.email_enabled,
        (b[o + 11] != 0) == t.ftp_enabled,
        le_u32(b, o + 12) == t.max_bars,
        le_u16(b, o + 17) == t.code_page,
{
    broadcast use group_field_lens;

    let q1 = c + field_u16(t.build as int);
    let q2 = q1 + field_flag(t.community_account);
    let q3 = q2 + field_flag(t.community_connection);
    let q4 = q3 + field_flag(t.notifications_enabled);
    let q5 = q4 + field_flag(t.mqid);
    let q6 = q5 + field_flag(t.connected);
    let q7 = q6 + field_flag(t.dlls_allowed);
    let q8 = q7 + field_flag(t.trade_allowed);
    let q9 = q8 + field_flag(t.trade_api_disabled);
    let q10 = q9 + field_flag(t.email_enabled);
    let q11 = q10 + field_flag(t.ftp_enabled);
    let q12 = q11 + field_u32(t.max_bars as int);
    let q13 = q12 + field_pad(1);
    lemma_u16_field(q13, t.code_page as int, b, o);
    lemma_agrees_front(q12, field_pad(1), b, o);
    lemma_u32_field(q11, t.max_bars as int, b, o);
    lemma_flag_field(q10, t.ftp_enabled, b, o);
    lemma_flag_field(q9, t.email_enabled, b, o);
    lemma_flag_field(q8, t.trade_api_disabled, b, o);
    lemma_flag_field(q7, t.trade_allowed, b, o);
    lemma_flag_field(q6, t.dlls_allowed, b, o);
    lemma_flag_field(q5, t.connected, b, o);
    lemma_flag_field(q4, t.mqid, b, o);
    lemma_flag_field(q3, t.notifications_enabled, b, o);
    lemma_flag_field(q2, t.community_connection, b, o);
    lemma_flag_field(q1, t.community_account, b, o);
    lemma_u16_field(c, t.build as int, b, o);
}

/// The fields ping last, community balance, retransmission, company, name, language, path, data
/// path, common data path of a terminal record, written after the `c` bytes before them, are read
/// at their offsets.
proof fn lemma_terminal_info_part_2(t: TerminalInfo, c: Seq<u8>, b: Seq<u8>, o: int)
    requires
        terminal_info_fits(t),
        c.len() == 19,
        agrees_at(c + field_pad(2) + field_u16(t.ping_last as int) + field_pad(1)
            + field_u64(t.community_balance as int) + field_u64(t.retransmission as int)
            + field_pad(1) + field_text(t.company@, 520) + field_text(t.name@, 520)
            + field_text(t.language@, 520) + field_text(t.path@, 520)
            + field_text(t.data_path@, 520) + field_text(t.common_data_path@, 520), b, o),
    ensures
        agrees_at(c, b, o),
        le_u16(b, o + 21) == t.ping_last,
        le_u64(b, o + 24) == t.community_balance,
        le_u64(b, o + 32) == t.retransmission,
        text_from(b, o + 41) == t.company@,
        text_from(b, o + 561) == t.name@,
        text_from(b, o + 1081) == t.language@,
        text_from(b, o + 1601) == t.path@,
        text_from(b, o + 2121) == t.data_path@,
        text_from(b, o + 2641) == t.common_data_path@,
{
    broadcast use group_field_lens;

    let q1 = c + field_pad(2);
    let q2 = q1 + field_u16(t.ping_last as int);
    let q3 = q2 + field_pad(1);
    let q4 = q3 + field_u64(t.community_balance as int);
    let q5 = q4 + field_u64(t.retransmission as int);
    let q6 = q5 + field_pad(1);
    let q7 = q6 + field_text(t.company@, 520);
    let q8 = q7 + field_text(t.name@, 520);
    let q9 = q8 + field_text(t.language@, 520);
    let q10 = q9 + field_text(t.path@, 520);
    let q11 = q10 + field_text(t.data_path@, 520);
    lemma_text_from_field(q11, t.common_data_path@, 520, b, o);
    lemma_text_from_field(q10, t.data_path@, 520, b, o);
    lemma_text_from_field(q9, t.path@, 520, b, o);
    lemma_text_from_field(q8, t.language@, 520, b, o);
    lemma_text_from_field(q7, t.name@, 520, b, o);
    lemma_text_from_field(q6, t.company@, 520, b, o);
    lemma_agrees_front(q5, field_pad(1), b, o);
    lemma_u64_field(q4, t.retransmission as int, b, o);
    lemma_u64_field(q3, t.community_balance as int, b, o);
    lemma_agrees_front(q2, field_pad(1), b, o);
    lemma_u16_field(q1, t.ping_last as int, b, o);
    lemma_agrees_front(c, field_pad(2), b, o);
}

} // verus!
