//! Trade orders: the closed variant set, their canonical byte encoding,
//! and carving (deriving a continuation order from a partially filled one).

use vstd::prelude::*;

use crate::bytes::{append_bytes, u128_le_bytes, u128_to_le_bytes, u64_le_bytes, u64_to_le_bytes};

verus! {

/// A limit order's common fields.
pub struct LimitOrder {
    /// Type-predicate hash of the token offered.
    pub bid_token: Vec<u8>,
    /// Type-predicate hash of the token requested.
    pub ask_token: Vec<u8>,
    /// Amount of the bid token offered.
    pub bid_amount: u128,
    /// Amount of the ask token requested.
    pub ask_amount: u128,
    /// Minimum capacity payout the order claims.
    pub claimed_ckbytes: u64,
    /// Lock-predicate hash of the recipient.
    pub recipient: Vec<u8>,
}

/// A market order's fields.
pub struct MarketOrder {
    /// Type-predicate hash of the token requested.
    pub ask_token: Vec<u8>,
    /// Lock-predicate hash of the recipient.
    pub recipient: Vec<u8>,
    /// Minimum capacity payout the order claims.
    pub claimed_ckbytes: u64,
}

/// A trade order: one of the four wire-format variants.
pub enum Order {
    Limit(LimitOrder),
    /// A limit order valid only strictly before the given block number.
    LimitWithDeadline(LimitOrder, u64),
    Market(MarketOrder),
    /// A market order that additionally claims a minimum realized ask amount.
    MarketWithMinimumAsk(MarketOrder, u128),
}

/// The order is one of the two limit variants.
pub open spec fn order_is_limit_like(o: Order) -> bool {
    o is Limit || o is LimitWithDeadline
}

/// The limit fields of a limit-like order; meaningless for market orders.
pub open spec fn limit_fields_of(o: Order) -> LimitOrder
    recommends
        order_is_limit_like(o),
{
    match o {
        Order::Limit(l) => l,
        Order::LimitWithDeadline(l, _) => l,
        Order::Market(_) => arbitrary(),
        Order::MarketWithMinimumAsk(_, _) => arbitrary(),
    }
}

/// The canonical byte encoding of a limit order's fields. Every
/// variable-length field is preceded by its little-endian 64-bit length, so
/// field boundaries are unambiguous and distinct field values never share
/// an encoding.
pub open spec fn limit_order_bytes(l: LimitOrder) -> Seq<u8> {
    u64_le_bytes(l.bid_token@.len() as u64) + l.bid_token@ + u64_le_bytes(
        l.ask_token@.len() as u64,
    ) + l.ask_token@ + u128_le_bytes(l.bid_amount) + u128_le_bytes(l.ask_amount) + u64_le_bytes(
        l.claimed_ckbytes,
    ) + u64_le_bytes(l.recipient@.len() as u64) + l.recipient@
}

/// The canonical byte encoding of a market order's fields, with each
/// variable-length field preceded by its little-endian 64-bit length.
pub open spec fn market_order_bytes(m: MarketOrder) -> Seq<u8> {
    u64_le_bytes(m.ask_token@.len() as u64) + m.ask_token@ + u64_le_bytes(
        m.recipient@.len() as u64,
    ) + m.recipient@ + u64_le_bytes(m.claimed_ckbytes)
}

/// The canonical byte encoding of an order: a variant tag followed by the
/// variant's length-delimited fields.
pub open spec fn order_bytes(o: Order) -> Seq<u8> {
    match o {
        Order::Limit(l) => seq![0u8] + limit_order_bytes(l),
        Order::LimitWithDeadline(l, d) => seq![1u8] + limit_order_bytes(l) + u64_le_bytes(d),
        Order::Market(m) => seq![2u8] + market_order_bytes(m),
        Order::MarketWithMinimumAsk(m, min) => seq![3u8] + market_order_bytes(m) + u128_le_bytes(
            min,
        ),
    }
}

/// The order carved from `o` by replacing bid amount, ask amount and claimed
/// capacity; tokens, recipient, variant and deadline are kept. Market orders
/// are returned unchanged (they are never carved).
pub open spec fn spec_carve(o: Order, new_bid: u128, new_ask: u128, new_ckbytes: u64) -> Order {
    match o {
        Order::Limit(l) => Order::Limit(
            LimitOrder {
                bid_token: l.bid_token,
                ask_token: l.ask_token,
                bid_amount: new_bid,
                ask_amount: new_ask,
                claimed_ckbytes: new_ckbytes,
                recipient: l.recipient,
            },
        ),
        Order::LimitWithDeadline(l, d) => Order::LimitWithDeadline(
            LimitOrder {
                bid_token: l.bid_token,
                ask_token: l.ask_token,
                bid_amount: new_bid,
                ask_amount: new_ask,
                claimed_ckbytes: new_ckbytes,
                recipient: l.recipient,
            },
            d,
        ),
        Order::Market(m) => Order::Market(m),
        Order::MarketWithMinimumAsk(m, min) => Order::MarketWithMinimumAsk(m, min),
    }
}

/// Carving changes exactly the bid amount, ask amount and claimed capacity;
/// carving the carved order again with the same amounts is a fixed point.
pub proof fn lemma_carve_idempotent(o: Order, new_bid: u128, new_ask: u128, new_ckbytes: u64)
    ensures
        spec_carve(spec_carve(o, new_bid, new_ask, new_ckbytes), new_bid, new_ask, new_ckbytes)
            == spec_carve(o, new_bid, new_ask, new_ckbytes),
        order_is_limit_like(o) ==> limit_fields_of(
            spec_carve(o, new_bid, new_ask, new_ckbytes),
        ).bid_amount == new_bid,
        order_is_limit_like(o) ==> limit_fields_of(
            spec_carve(o, new_bid, new_ask, new_ckbytes),
        ).ask_amount == new_ask,
        order_is_limit_like(o) ==> limit_fields_of(
            spec_carve(o, new_bid, new_ask, new_ckbytes),
        ).claimed_ckbytes == new_ckbytes,
{
}

/// Encodes an order into its canonical bytes.
pub fn encode_order(o: &Order) -> (r: Vec<u8>)
    ensures
        r@ == order_bytes(*o),
{
    let mut r: Vec<u8> = Vec::new();
    match o {
        Order::Limit(l) => {
            r.push(0u8);
            append_limit_fields(&mut r, l);
            proof {
                assert(r@ =~= order_bytes(*o));
            }
        },
        Order::LimitWithDeadline(l, d) => {
            r.push(1u8);
            append_limit_fields(&mut r, l);
            let db = u64_to_le_bytes(*d);
            append_bytes(&mut r, &db);
            proof {
                assert(r@ =~= order_bytes(*o));
            }
        },
        Order::Market(m) => {
            r.push(2u8);
            append_market_fields(&mut r, m);
            proof {
                assert(r@ =~= order_bytes(*o));
            }
        },
        Order::MarketWithMinimumAsk(m, min) => {
            r.push(3u8);
            append_market_fields(&mut r, m);
            let mb = u128_to_le_bytes(*min);
            append_bytes(&mut r, &mb);
            proof {
                assert(r@ =~= order_bytes(*o));
            }
        },
    }
    r
}

fn append_limit_fields(r: &mut Vec<u8>, l: &LimitOrder)
    ensures
        final(r)@ == old(r)@ + limit_order_bytes(*l),
{
    let bid_token_len = u64_to_le_bytes(l.bid_token.len() as u64);
    append_bytes(r, &bid_token_len);
    append_bytes(r, &l.bid_token);
    let ask_token_len = u64_to_le_bytes(l.ask_token.len() as u64);
    append_bytes(r, &ask_token_len);
    append_bytes(r, &l.ask_token);
    let bid = u128_to_le_bytes(l.bid_amount);
    append_bytes(r, &bid);
    let ask = u128_to_le_bytes(l.ask_amount);
    append_bytes(r, &ask);
    let ck = u64_to_le_bytes(l.claimed_ckbytes);
    append_bytes(r, &ck);
    let recipient_len = u64_to_le_bytes(l.recipient.len() as u64);
    append_bytes(r, &recipient_len);
    append_bytes(r, &l.recipient);
    proof {
        assert(r@ =~= old(r)@ + limit_order_bytes(*l));
    }
}

fn append_market_fields(r: &mut Vec<u8>, m: &MarketOrder)
    ensures
        final(r)@ == old(r)@ + market_order_bytes(*m),
{
    let ask_token_len = u64_to_le_bytes(m.ask_token.len() as u64);
    append_bytes(r, &ask_token_len);
    append_bytes(r, &m.ask_token);
    let recipient_len = u64_to_le_bytes(m.recipient.len() as u64);
    append_bytes(r, &recipient_len);
    append_bytes(r, &m.recipient);
    let ck = u64_to_le_bytes(m.claimed_ckbytes);
    append_bytes(r, &ck);
    proof {
        assert(r@ =~= old(r)@ + market_order_bytes(*m));
    }
}

/// Carves a limit-like order: a new order of the same variant whose bid
/// amount, ask amount and claimed capacity are replaced and whose every
/// other byte is unaffected. Carving is defined for the two limit variants
/// only.
pub fn carve_limit_order(o: &Order, new_bid: u128, new_ask: u128, new_ckbytes: u64) -> (r: Order)
    requires
        order_is_limit_like(*o),
    ensures
        order_bytes(r) == order_bytes(spec_carve(*o, new_bid, new_ask, new_ckbytes)),
        order_is_limit_like(r),
        limit_fields_of(r).bid_token@ == limit_fields_of(*o).bid_token@,
        limit_fields_of(r).ask_token@ == limit_fields_of(*o).ask_token@,
        limit_fields_of(r).recipient@ == limit_fields_of(*o).recipient@,
        limit_fields_of(r).bid_amount == new_bid,
        limit_fields_of(r).ask_amount == new_ask,
        limit_fields_of(r).claimed_ckbytes == new_ckbytes,
{
    match o {
        Order::Limit(l) => Order::Limit(carve_fields(l, new_bid, new_ask, new_ckbytes)),
        Order::LimitWithDeadline(l, d) => Order::LimitWithDeadline(
            carve_fields(l, new_bid, new_ask, new_ckbytes),
            *d,
        ),
        // The market variants are excluded by the precondition.
        Order::Market(m) => Order::Market(clone_market(m)),
        Order::MarketWithMinimumAsk(m, min) => Order::MarketWithMinimumAsk(clone_market(m), *min),
    }
}

fn carve_fields(l: &LimitOrder, new_bid: u128, new_ask: u128, new_ckbytes: u64) -> (r: LimitOrder)
    ensures
        r.bid_token@ == l.bid_token@,
        r.ask_token@ == l.ask_token@,
        r.recipient@ == l.recipient@,
        r.bid_amount == new_bid,
        r.ask_amount == new_ask,
        r.claimed_ckbytes == new_ckbytes,
{
    LimitOrder {
        bid_token: clone_bytes(&l.bid_token),
        ask_token: clone_bytes(&l.ask_token),
        bid_amount: new_bid,
        ask_amount: new_ask,
        claimed_ckbytes: new_ckbytes,
        recipient: clone_bytes(&l.recipient),
    }
}

fn clone_market(m: &MarketOrder) -> (r: MarketOrder)
    ensures
        r.ask_token@ == m.ask_token@,
        r.recipient@ == m.recipient@,
        r.claimed_ckbytes == m.claimed_ckbytes,
        market_order_bytes(r) == market_order_bytes(*m),
{
    MarketOrder {
        ask_token: clone_bytes(&m.ask_token),
        recipient: clone_bytes(&m.recipient),
        claimed_ckbytes: m.claimed_ckbytes,
    }
}

/// Copies a byte vector.
pub fn clone_bytes(a: &Vec<u8>) -> (r: Vec<u8>)
    ensures
        r@ == a@,
{
    let mut r: Vec<u8> = Vec::new();
    append_bytes(&mut r, a);
    proof {
        assert(r@ =~= a@);
    }
    r
}

} // verus!
