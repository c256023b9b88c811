//! The order entity, the inbound request, and the conversion between them.

use mongodb::bson::oid::ObjectId;
use vstd::prelude::*;
use vstd::string::StringExecFns;

verus! {

/// The 12-byte document identifier of the `bson` crate. Its bytes are not
/// visible here: an identifier is only made, carried and compared.
#[verifier::external_type_specification]
#[verifier::external_body]
pub struct ExObjectId(ObjectId);

/// Which way an order trades.
#[derive(Debug, Clone, Copy, PartialEq, Eq, Structural)]
pub enum OrderSide {
    Buy,
    Sell,
}

/// How an order is priced.
#[derive(Debug, Clone, Copy, PartialEq, Eq, Structural)]
pub enum OrderKind {
    Market,
    Limit,
}

/// The numeric identity scheme: a bare number that the caller supplies.
#[derive(Debug, Clone, Copy, PartialEq, Eq, Structural)]
pub enum OrderId {
    Int(i64),
}

/// Where an order stands in its life.
#[derive(Debug, Clone, Copy, PartialEq, Eq, Structural)]
pub enum OrderStatus {
    Open,
    Filled,
    Cancelled,
}

impl OrderSide {
    /// The text that stands for this side.
    pub open spec fn label(self) -> Seq<char> {
        match self {
            OrderSide::Buy => "Buy"@,
            OrderSide::Sell => "Sell"@,
        }
    }

    /// The side as text: `Buy` or `Sell`.
    pub fn to_string(&self) -> (text: String)
        ensures
            text@ == self.label(),
    {
        match self {
            OrderSide::Buy => String::from_str("Buy"),
            OrderSide::Sell => String::from_str("Sell"),
        }
    }
}

impl OrderKind {
    /// The text that stands for this kind.
    pub open spec fn label(self) -> Seq<char> {
        match self {
            OrderKind::Market => "Market"@,
            OrderKind::Limit => "Limit"@,
        }
    }

    /// The kind as text: `Market` or `Limit`.
    pub fn to_string(&self) -> (text: String)
        ensures
            text@ == self.label(),
    {
        match self {
            OrderKind::Limit => String::from_str("Limit"),
            OrderKind::Market => String::from_str("Market"),
        }
    }
}

impl OrderStatus {
    /// The text that stands for this status.
    pub open spec fn label(self) -> Seq<char> {
        match self {
            OrderStatus::Open => "Open"@,
            OrderStatus::Filled => "Filled"@,
            OrderStatus::Cancelled => "Cancelled"@,
        }
    }

    /// The status as text: `Open`, `Filled` or `Cancelled`.
    pub fn to_string(&self) -> (text: String)
        ensures
            text@ == self.label(),
    {
        match self {
            OrderStatus::Open => String::from_str("Open"),
            OrderStatus::Filled => String::from_str("Filled"),
            OrderStatus::Cancelled => String::from_str("Cancelled"),
        }
    }
}

/// A stored trade instruction.
///
/// `quantity` and `price` are kept as the text that was received, so that no
/// decimal is ever rounded on the way to storage and back.
#[derive(Debug)]
pub struct Order {
    pub id: ObjectId,
    pub symbol: String,
    pub quantity: String,
    pub price: String,
    pub side: OrderSide,
    pub kind: OrderKind,
    pub status: Option<OrderStatus>,
    pub ttl: Option<u64>,
}

impl Clone for Order {
    /// A copy that agrees with `self` on every field.
    fn clone(&self) -> (copy: Self)
        ensures
            copy == *self,
    {
        Order {
            id: self.id,
            symbol: self.symbol.clone(),
            quantity: self.quantity.clone(),
            price: self.price.clone(),
            side: self.side,
            kind: self.kind,
            status: self.status,
            ttl: self.ttl,
        }
    }
}

/// What a caller submits: an order without identity and status.
#[derive(Debug)]
pub struct OrderRequest {
    pub symbol: String,
    pub quantity: String,
    pub price: String,
    pub side: OrderSide,
    pub kind: OrderKind,
    pub ttl: Option<u64>,
}

impl Clone for OrderRequest {
    /// A copy that agrees with `self` on every field.
    fn clone(&self) -> (copy: Self)
        ensures
            copy == *self,
    {
        OrderRequest {
            symbol: self.symbol.clone(),
            quantity: self.quantity.clone(),
            price: self.price.clone(),
            side: self.side,
            kind: self.kind,
            ttl: self.ttl,
        }
    }
}

/// Makes an identifier with `ObjectId::new` of the `bson` crate.
///
/// That function builds the identifier from the clock, a value drawn at
/// random once per process and a counter, so nothing is claimed of what comes
/// back: not its bytes, and not that it differs from any identifier made
/// before. It panics where the system clock is set before 1970.
#[verifier::external_body]
fn fresh_object_id() -> ObjectId {
    ObjectId::new()
}

impl OrderRequest {
    /// The order that this request becomes under the identity `id`: every
    /// field of the request as it is, and the status `Open`.
    pub open spec fn order_with_id(self, id: ObjectId) -> Order {
        Order {
            id,
            symbol: self.symbol,
            quantity: self.quantity,
            price: self.price,
            side: self.side,
            kind: self.kind,
            status: Some(OrderStatus::Open),
            ttl: self.ttl,
        }
    }

    /// Whether `order` is what this request becomes under the identity that
    /// `order` carries.
    pub open spec fn becomes(self, order: Order) -> bool {
        order == self.order_with_id(order.id)
    }

    /// Turns the request into an order under the identity `id`.
    pub fn into_order(self, id: ObjectId) -> (order: Order)
        ensures
            order == self.order_with_id(id),
    {
        Order {
            id,
            symbol: self.symbol,
            quantity: self.quantity,
            price: self.price,
            side: self.side,
            kind: self.kind,
            status: Some(OrderStatus::Open),
            ttl: self.ttl,
        }
    }
}

/// Whatever identity a request is converted under, the order starts open,
/// carries that identity, and has the request's other fields as they were:
/// the quantity and the price are the very text that was received.
pub proof fn lemma_conversion_opens(request: OrderRequest, id: ObjectId)
    ensures
        request.order_with_id(id).status == Some(OrderStatus::Open),
        request.order_with_id(id).id == id,
        request.order_with_id(id).symbol == request.symbol,
        request.order_with_id(id).quantity == request.quantity,
        request.order_with_id(id).price == request.price,
        request.order_with_id(id).side == request.side,
        request.order_with_id(id).kind == request.kind,
        request.order_with_id(id).ttl == request.ttl,
{
}

/// Two conversions under different identities give different orders, also
/// where the two requests are the same. Whether two identities that were made
/// one after the other differ is the identifier's maker's matter, and is not
/// claimed here.
pub proof fn lemma_conversions_differ_by_identity(
    first: OrderRequest,
    second: OrderRequest,
    first_id: ObjectId,
    second_id: ObjectId,
)
    requires
        first_id != second_id,
    ensures
        first.order_with_id(first_id) != second.order_with_id(second_id),
        first.order_with_id(first_id).id != second.order_with_id(second_id).id,
{
}

impl vstd::std_specs::convert::IntoSpecImpl<Order> for OrderRequest {
    /// The conversion makes a new identity on each call, so its result is no
    /// function of the request alone.
    open spec fn obeys_into_spec() -> bool {
        false
    }

    /// Not binding, as `obeys_into_spec` says: the request's order under
    /// some identity.
    open spec fn into_spec(self) -> Order {
        self.order_with_id(arbitrary())
    }
}

impl Into<Order> for OrderRequest {
    /// Turns the request into an order under a newly made identity. Whatever
    /// identity was made, the order is the request's order under it.
    fn into(self) -> (order: Order)
        ensures
            self.becomes(order),
    {
        let id = fresh_object_id();
        self.into_order(id)
    }
}

} // verus!
