//! Domain model: orders, positions, margin ratios, the direction / effect /
//! order-type codes, and the sixteen-byte storage key of a trading pair.
use crate::decimal::Decimal;
use crate::error::{parse_error, ContractError};
use crate::utils::SignedDecimal;
use vstd::prelude::*;
use vstd::slice::slice_subrange;
use vstd::utf8::{decode_utf8, encode_utf8, valid_utf8};

verus! {

#[derive(Clone, Debug)]
pub struct Order {
    pub id: u64,
    pub account: String,
    pub price_denom: String,
    pub asset_denom: String,
    pub price: SignedDecimal,
    pub quantity: SignedDecimal,
    pub remaining_quantity: SignedDecimal,
    pub direction: PositionDirection,
    pub effect: PositionEffect,
    pub leverage: SignedDecimal,
    pub order_type: OrderType,
}

#[derive(Clone, Debug)]
pub struct FundingPaymentRate {
    pub price_diff: SignedDecimal,
    pub epoch: i64,
}

#[derive(Clone, Copy, Debug, PartialEq, Eq, Structural, Hash)]
pub enum PositionDirection {
    Unknown,
    Long,
    Short,
}

#[derive(Clone, Copy, Debug, PartialEq, Eq, Structural, Hash)]
pub enum PositionEffect {
    Unknown,
    Open,
    Close,
}

#[derive(Clone, Copy, Debug, PartialEq, Eq, Structural, Hash)]
pub enum OrderType {
    Unknown,
    Limit,
    Market,
    Liquidation,
    FokMarket,
}

/// The order type that a wire code stands for.
pub open spec fn order_type_of_code(i: i32) -> OrderType {
    if i == 0 {
        OrderType::Limit
    } else if i == 1 {
        OrderType::Market
    } else if i == 2 {
        OrderType::Liquidation
    } else if i == 3 {
        OrderType::FokMarket
    } else {
        OrderType::Unknown
    }
}

/// The wire code of an order type.
pub open spec fn code_of_order_type(o: OrderType) -> i32 {
    match o {
        OrderType::Limit => 0,
        OrderType::Market => 1,
        OrderType::Liquidation => 2,
        OrderType::FokMarket => 3,
        OrderType::Unknown => -1i32,
    }
}

/// The direction that a wire code stands for.
pub open spec fn direction_of_code(i: i32) -> PositionDirection {
    if i == 0 {
        PositionDirection::Long
    } else if i == 1 {
        PositionDirection::Short
    } else {
        PositionDirection::Unknown
    }
}

/// The wire code of a direction.
pub open spec fn code_of_direction(d: PositionDirection) -> i32 {
    match d {
        PositionDirection::Long => 0,
        PositionDirection::Short => 1,
        PositionDirection::Unknown => -1i32,
    }
}

pub fn i32_to_order_type(i: i32) -> (r: OrderType)
    ensures
        r == order_type_of_code(i),
{
    match i {
        0i32 => OrderType::Limit,
        1i32 => OrderType::Market,
        2i32 => OrderType::Liquidation,
        3i32 => OrderType::FokMarket,
        _ => OrderType::Unknown,
    }
}

pub fn order_type_to_i32(o: OrderType) -> (r: i32)
    ensures
        r == code_of_order_type(o),
{
    match o {
        OrderType::Limit => 0i32,
        OrderType::Market => 1i32,
        OrderType::Liquidation => 2i32,
        OrderType::FokMarket => 3i32,
        OrderType::Unknown => -1i32,
    }
}

pub fn i32_to_direction(i: i32) -> (r: PositionDirection)
    ensures
        r == direction_of_code(i),
{
    match i {
        0i32 => PositionDirection::Long,
        1i32 => PositionDirection::Short,
        _ => PositionDirection::Unknown,
    }
}

pub fn direction_to_i32(d: PositionDirection) -> (r: i32)
    ensures
        r == code_of_direction(d),
{
    match d {
        PositionDirection::Long => 0i32,
        PositionDirection::Short => 1i32,
        PositionDirection::Unknown => -1i32,
    }
}

/// Decoding the code of an order type gives the type back, and every code
/// outside 0..=3 decodes to `Unknown`.
pub proof fn lemma_order_type_code_round_trip(t: OrderType, i: i32)
    ensures
        t != OrderType::Unknown ==> order_type_of_code(code_of_order_type(t)) == t,
        !(0 <= i <= 3) ==> order_type_of_code(i) == OrderType::Unknown,
        0 <= i <= 3 ==> code_of_order_type(order_type_of_code(i)) == i,
{
}

/// Decoding the code of a direction gives the direction back, and every code
/// but 0 and 1 decodes to `Unknown`.
pub proof fn lemma_direction_code_round_trip(d: PositionDirection, i: i32)
    ensures
        d != PositionDirection::Unknown ==> direction_of_code(code_of_direction(d)) == d,
        !(0 <= i <= 1) ==> direction_of_code(i) == PositionDirection::Unknown,
{
}

pub open spec fn opposite_of(d: PositionDirection) -> PositionDirection {
    match d {
        PositionDirection::Long => PositionDirection::Short,
        PositionDirection::Short => PositionDirection::Long,
        PositionDirection::Unknown => PositionDirection::Unknown,
    }
}

/// Long and Short swap; `Unknown` stays `Unknown`.
pub fn opposite_direction(direction: PositionDirection) -> (r: PositionDirection)
    ensures
        r == opposite_of(direction),
{
    match direction {
        PositionDirection::Long => PositionDirection::Short,
        PositionDirection::Short => PositionDirection::Long,
        PositionDirection::Unknown => PositionDirection::Unknown,
    }
}

/// Width in bytes of each denom's half of a pair key.
pub const DENOM_KEY_LEN: usize = 8;

/// Width in bytes of a pair key.
pub const PAIR_KEY_LEN: usize = 16;

/// The UTF-8 bytes of a text.
pub open spec fn text_bytes(s: Seq<char>) -> Seq<u8> {
    encode_utf8(s)
}

/// One half of a pair key: the first eight bytes of `denom`, zero-padded to
/// eight.
pub open spec fn denom_half(denom: Seq<u8>) -> Seq<u8> {
    Seq::new(8, |i: int| if i < denom.len() { denom[i] } else { 0u8 })
}

/// The key of a pair given by its two denoms: price denom's half, then asset
/// denom's half.
pub open spec fn pair_key(price_denom: Seq<char>, asset_denom: Seq<char>) -> Seq<u8> {
    denom_half(text_bytes(price_denom)) + denom_half(text_bytes(asset_denom))
}

/// `s` without its trailing zero bytes.
pub open spec fn trim_zeros(s: Seq<u8>) -> Seq<u8>
    decreases s.len(),
{
    if s.len() > 0 && s.last() == 0 {
        trim_zeros(s.drop_last())
    } else {
        s
    }
}

/// The denoms that a sixteen-byte key holds: each half without its trailing
/// zeros, read as UTF-8; `None` for another length or bytes that are not UTF-8.
pub open spec fn decode_pair_key(key: Seq<u8>) -> Option<(Seq<char>, Seq<char>)> {
    let p = trim_zeros(key.subrange(0, 8));
    let a = trim_zeros(key.subrange(8, 16));
    if key.len() == 16 && valid_utf8(p) && valid_utf8(a) {
        Some((decode_utf8(p), decode_utf8(a)))
    } else {
        None
    }
}

/// Relies on `std::str::from_utf8`: succeeds exactly on valid UTF-8, with the
/// text that the bytes encode.
#[verifier::external_body]
fn utf8_text(bytes: &[u8]) -> (r: Option<&str>)
    ensures
        r is Some == valid_utf8(bytes@),
        r matches Some(s) ==> s@ == decode_utf8(bytes@),
{
    match std::str::from_utf8(bytes) {
        Ok(s) => Some(s),
        Err(_) => None,
    }
}

/// A trading market: price denom and asset denom.
#[derive(Clone, Debug, Hash, PartialEq, Eq)]
pub struct Pair {
    pub price_denom: String,
    pub asset_denom: String,
}

impl View for Pair {
    type V = (Seq<char>, Seq<char>);

    open spec fn view(&self) -> (Seq<char>, Seq<char>) {
        (self.price_denom@, self.asset_denom@)
    }
}

/// Copies `src` into the front of `bytes`, as much of it as fits.
fn copy_prefix(bytes: &mut [u8], src: &[u8])
    ensures
        final(bytes)@.len() == old(bytes)@.len(),
        forall|i: int|
            0 <= i < old(bytes)@.len() ==> #[trigger] final(bytes)@[i] == if i < src@.len() {
                src@[i]
            } else {
                old(bytes)@[i]
            },
{
    let n = if src.len() < bytes.len() { src.len() } else { bytes.len() };
    let mut i: usize = 0;
    while i < n
        invariant
            n <= src@.len(),
            n <= old(bytes)@.len(),
            i <= n,
            bytes@.len() == old(bytes)@.len(),
            n == src@.len() || n == old(bytes)@.len(),
            forall|j: int|
                0 <= j < old(bytes)@.len() ==> #[trigger] bytes@[j] == if j < i {
                    src@[j]
                } else {
                    old(bytes)@[j]
                },
        decreases n - i,
    {
        bytes[i] = src[i];
        i = i + 1;
    }
}

impl Pair {
    /// A pair from two denoms, refused with `InvalidDenom` (naming the first
    /// denom at fault) when either takes more than eight bytes, so that its key
    /// never cuts a denom short.
    pub fn new_checked(price_denom: String, asset_denom: String) -> (r: Result<Pair, ContractError>)
        ensures
            text_bytes(price_denom@).len() <= 8 && text_bytes(asset_denom@).len() <= 8 ==> (r matches Ok(
                p,
            ) && p@ == (price_denom@, asset_denom@)),
            text_bytes(price_denom@).len() > 8 ==> (r matches Err(
                ContractError::InvalidDenom { unsupported_denom },
            ) && unsupported_denom@ == price_denom@),
            text_bytes(price_denom@).len() <= 8 && text_bytes(asset_denom@).len() > 8 ==> (r matches Err(
                ContractError::InvalidDenom { unsupported_denom },
            ) && unsupported_denom@ == asset_denom@),
    {
        if price_denom.as_str().as_bytes().len() > DENOM_KEY_LEN {
            return Err(ContractError::InvalidDenom { unsupported_denom: price_denom });
        }
        if asset_denom.as_str().as_bytes().len() > DENOM_KEY_LEN {
            return Err(ContractError::InvalidDenom { unsupported_denom: asset_denom });
        }
        Ok(Pair { price_denom, asset_denom })
    }

    /// The sixteen-byte storage key: the price denom's bytes, then the asset
    /// denom's bytes, each cut or zero-padded to eight.
    pub fn to_bytes(&self) -> (r: [u8; 16])
        ensures
            r@ == pair_key(self.price_denom@, self.asset_denom@),
    {
        let mut price_denom_bytes: [u8; 8] = [0u8; 8];
        let mut asset_denom_bytes: [u8; 8] = [0u8; 8];
        let mut bytes: [u8; 16] = [0u8; 16];

        self.fill_bytes_from_price_denom(&mut price_denom_bytes);
        self.fill_bytes_from_asset_denom(&mut asset_denom_bytes);

        let mut i: usize = 0;
        while i < 8
            invariant
                i <= 8,
                price_denom_bytes@ == denom_half(text_bytes(self.price_denom@)),
                asset_denom_bytes@ == denom_half(text_bytes(self.asset_denom@)),
                forall|j: int| 0 <= j < i ==> #[trigger] bytes@[j] == price_denom_bytes@[j],
                forall|j: int|
                    8 <= j < 8 + i ==> #[trigger] bytes@[j] == asset_denom_bytes@[j - 8],
            decreases 8 - i,
        {
            bytes[i] = price_denom_bytes[i];
            bytes[i + 8] = asset_denom_bytes[i];
            i = i + 1;
        }
        assert(bytes@ =~= pair_key(self.price_denom@, self.asset_denom@));
        bytes
    }

    /// Writes the price denom's bytes into the front of `bytes`, as many as fit.
    pub fn fill_bytes_from_price_denom(&self, bytes: &mut [u8])
        ensures
            final(bytes)@.len() == old(bytes)@.len(),
            forall|i: int|
                0 <= i < old(bytes)@.len() ==> #[trigger] final(bytes)@[i] == if i < text_bytes(
                    self.price_denom@,
                ).len() {
                    text_bytes(self.price_denom@)[i]
                } else {
                    old(bytes)@[i]
                },
    {
        copy_prefix(bytes, self.price_denom.as_str().as_bytes());
    }

    /// Writes the asset denom's bytes into the front of `bytes`, as many as fit.
    pub fn fill_bytes_from_asset_denom(&self, bytes: &mut [u8])
        ensures
            final(bytes)@.len() == old(bytes)@.len(),
            forall|i: int|
                0 <= i < old(bytes)@.len() ==> #[trigger] final(bytes)@[i] == if i < text_bytes(
                    self.asset_denom@,
                ).len() {
                    text_bytes(self.asset_denom@)[i]
                } else {
                    old(bytes)@[i]
                },
    {
        copy_prefix(bytes, self.asset_denom.as_str().as_bytes());
    }

    /// Reads a pair back from its key: each eight-byte half without its
    /// trailing zero bytes is a denom. Fails with a parse error when the key is
    /// not sixteen bytes long or a half is not UTF-8.
    pub fn from_vec(value: Vec<u8>) -> (r: Result<Pair, cosmwasm_std::StdError>)
        ensures
            r is Ok == decode_pair_key(value@) is Some,
            r matches Ok(p) ==> decode_pair_key(value@) == Some(p@),
    {
        if value.len() != PAIR_KEY_LEN {
            return Err(parse_error("pair", "bytes should have a length of 16"));
        }
        let mut price_denom_last_char_idx: usize = 8;
        while price_denom_last_char_idx > 0 && value[price_denom_last_char_idx - 1] == 0
            invariant
                value@.len() == 16,
                price_denom_last_char_idx <= 8,
                trim_zeros(value@.subrange(0, price_denom_last_char_idx as int)) == trim_zeros(
                    value@.subrange(0, 8),
                ),
            decreases price_denom_last_char_idx,
        {
            assert(value@.subrange(0, price_denom_last_char_idx as int).drop_last() =~= value@.subrange(
                0,
                price_denom_last_char_idx - 1,
            ));
            price_denom_last_char_idx -= 1;
        }
        let price_value = slice_subrange(value.as_slice(), 0, price_denom_last_char_idx);
        assert(price_value@ == trim_zeros(value@.subrange(0, 8)));
        let price_denom = match utf8_text(price_value) {
            Some(text) => String::from_str(text),
            None => return Err(parse_error("pair", "price denom should be valid utf-8")),
        };
        let mut asset_denom_last_char_idx: usize = 16;
        while asset_denom_last_char_idx > 8 && value[asset_denom_last_char_idx - 1] == 0
            invariant
                value@.len() == 16,
                8 <= asset_denom_last_char_idx <= 16,
                trim_zeros(value@.subrange(8, asset_denom_last_char_idx as int)) == trim_zeros(
                    value@.subrange(8, 16),
                ),
            decreases asset_denom_last_char_idx,
        {
            assert(value@.subrange(8, asset_denom_last_char_idx as int).drop_last() =~= value@.subrange(
                8,
                asset_denom_last_char_idx - 1,
            ));
            asset_denom_last_char_idx -= 1;
        }
        let asset_value = slice_subrange(value.as_slice(), 8, asset_denom_last_char_idx);
        assert(asset_value@ == trim_zeros(value@.subrange(8, 16)));
        let asset_denom = match utf8_text(asset_value) {
            Some(text) => String::from_str(text),
            None => return Err(parse_error("pair", "asset denom should be valid utf-8")),
        };
        Ok(Pair { price_denom, asset_denom })
    }
}

} // verus!

verus! {

/// `a` comes before `b` in lexicographic byte order.
pub open spec fn bytes_lt(a: Seq<u8>, b: Seq<u8>) -> bool {
    ||| exists|i: int|
        0 <= i < a.len() && i < b.len() && #[trigger] a.subrange(0, i) == b.subrange(0, i) && a[i]
            < b[i]
    ||| (a.len() < b.len() && a == b.subrange(0, a.len() as int))
}

/// Removing the zero padding of a half gives back bytes that do not end in zero.
proof fn lemma_trim_padded(b: Seq<u8>, n: nat)
    requires
        b.len() <= n,
        b.len() > 0 ==> b.last() != 0,
    ensures
        trim_zeros(Seq::new(n, |i: int| if i < b.len() { b[i] } else { 0u8 })) == b,
    decreases n,
{
    let padded = Seq::new(n, |i: int| if i < b.len() { b[i] } else { 0u8 });
    if n == b.len() {
        assert(padded =~= b);
    } else {
        let shorter = Seq::new((n - 1) as nat, |i: int| if i < b.len() { b[i] } else { 0u8 });
        assert(padded.drop_last() =~= shorter);
        lemma_trim_padded(b, (n - 1) as nat);
    }
}

/// A pair whose denoms take at most eight bytes each, and do not end in a zero
/// byte, is read back unchanged from its key.
pub proof fn lemma_pair_key_round_trip(price_denom: Seq<char>, asset_denom: Seq<char>)
    requires
        text_bytes(price_denom).len() <= 8,
        text_bytes(asset_denom).len() <= 8,
        text_bytes(price_denom).len() > 0 ==> text_bytes(price_denom).last() != 0,
        text_bytes(asset_denom).len() > 0 ==> text_bytes(asset_denom).last() != 0,
    ensures
        decode_pair_key(pair_key(price_denom, asset_denom)) == Some((price_denom, asset_denom)),
{
    let key = pair_key(price_denom, asset_denom);
    let p = text_bytes(price_denom);
    let a = text_bytes(asset_denom);
    assert(key.subrange(0, 8) =~= denom_half(p));
    assert(key.subrange(8, 16) =~= denom_half(a));
    lemma_trim_padded(p, 8);
    lemma_trim_padded(a, 8);
    vstd::utf8::encode_utf8_valid_utf8(price_denom);
    vstd::utf8::encode_utf8_valid_utf8(asset_denom);
    vstd::utf8::encode_utf8_decode_utf8(price_denom);
    vstd::utf8::encode_utf8_decode_utf8(asset_denom);
}

/// Behind a common prefix, the order of two sequences of equal length is the
/// order of what follows the prefix.
proof fn lemma_bytes_lt_common_prefix(c: Seq<u8>, x: Seq<u8>, y: Seq<u8>)
    requires
        x.len() == y.len(),
    ensures
        bytes_lt(c + x, c + y) == bytes_lt(x, y),
{
    let cx = c + x;
    let cy = c + y;
    let n = c.len() as int;
    if bytes_lt(cx, cy) {
        let i = choose|i: int|
            0 <= i < cx.len() && i < cy.len() && #[trigger] cx.subrange(0, i) == cy.subrange(0, i)
                && cx[i] < cy[i];
        assert(i >= n);
        assert(x.subrange(0, i - n) =~= cx.subrange(0, i).subrange(n, i));
        assert(y.subrange(0, i - n) =~= cy.subrange(0, i).subrange(n, i));
        assert(x.subrange(0, i - n) == y.subrange(0, i - n) && x[i - n] < y[i - n]);
    }
    if bytes_lt(x, y) {
        let j = choose|j: int|
            0 <= j < x.len() && j < y.len() && #[trigger] x.subrange(0, j) == y.subrange(0, j)
                && x[j] < y[j];
        assert(cx.subrange(0, j + n) =~= c + x.subrange(0, j));
        assert(cy.subrange(0, j + n) =~= c + y.subrange(0, j));
        assert(cx.subrange(0, j + n) == cy.subrange(0, j + n) && cx[j + n] < cy[j + n]);
    }
}

/// Two pairs with the same price denom have keys that agree on the first eight
/// bytes, and the keys are ordered as the asset denoms' halves are.
pub proof fn lemma_pair_key_groups_by_price_denom(
    price_denom: Seq<char>,
    asset_denom1: Seq<char>,
    asset_denom2: Seq<char>,
)
    ensures
        pair_key(price_denom, asset_denom1).subrange(0, 8) == pair_key(
            price_denom,
            asset_denom2,
        ).subrange(0, 8),
        pair_key(price_denom, asset_denom1).subrange(8, 16) == denom_half(text_bytes(asset_denom1)),
        bytes_lt(pair_key(price_denom, asset_denom1), pair_key(price_denom, asset_denom2))
            == bytes_lt(denom_half(text_bytes(asset_denom1)), denom_half(text_bytes(asset_denom2))),
{
    let c = denom_half(text_bytes(price_denom));
    let h1 = denom_half(text_bytes(asset_denom1));
    let h2 = denom_half(text_bytes(asset_denom2));
    assert(pair_key(price_denom, asset_denom1).subrange(0, 8) =~= c);
    assert(pair_key(price_denom, asset_denom2).subrange(0, 8) =~= c);
    assert(pair_key(price_denom, asset_denom1).subrange(8, 16) =~= h1);
    lemma_bytes_lt_common_prefix(c, h1, h2);
}

} // verus!

verus! {

/// An account's exposure on one pair in one direction. Quantity, margin debt
/// and total cost are never negative.
#[derive(Clone, Copy, Debug)]
pub struct Position {
    pub direction: PositionDirection,
    pub quantity: SignedDecimal,
    /// What the account borrowed to build the position, in price denom.
    pub total_margin_debt: SignedDecimal,
    /// What the account paid to build the position, borrowed and own funds.
    pub total_cost: SignedDecimal,
    /// Last epoch at which a funding payment was charged or paid.
    pub last_funding_payment_epoch: i64,
    /// Last cumulative funding rate paid.
    pub last_paid_funding_payment_rate: SignedDecimal,
}

impl Position {
    /// Quantity, margin debt and total cost are not below zero.
    pub open spec fn well_formed(self) -> bool {
        self.quantity.value() >= 0 && self.total_margin_debt.value() >= 0
            && self.total_cost.value() >= 0
    }
}

/// Initial, partial and maintenance margin thresholds.
#[derive(Clone, Copy, Debug, PartialEq, Eq, Structural)]
pub struct MarginRatios {
    pub initial: Decimal,
    pub partial: Decimal,
    pub maintenance: Decimal,
}

} // verus!
