use vstd::prelude::*;

verus! {

use crate::money::Money;

/// A physical item in a consignment: its dimensions and quantity,
/// plus optional declared attributes.
///
/// Dimensions, quantity and weight are non-negative by construction:
/// they are held as unsigned integers.
#[derive(Debug)]
pub struct Product {
    pub length: u64,
    pub width: u64,
    pub height: u64,
    pub quantity: u64,
    /// Unit weight, in the carrier's weight unit.
    pub weight: u64,
    /// Declared value of one item, when the caller declares it.
    pub declared_value: Option<Money>,
    /// Free-text description, when the caller gives one.
    pub description: Option<String>,
}

impl Product {
    /// A product with zero dimensions and quantity and no declared
    /// attributes.
    pub fn new() -> (r: Self)
        ensures
            r.length == 0,
            r.width == 0,
            r.height == 0,
            r.quantity == 0,
            r.weight == 0,
            r.declared_value is None,
            r.description is None,
    {
        Product {
            length: 0,
            width: 0,
            height: 0,
            quantity: 0,
            weight: 0,
            declared_value: None,
            description: None,
        }
    }

    /// A product from raw dimensions and quantity; everything else
    /// stays undeclared.
    pub fn from_lwh_quantity(length: u64, width: u64, height: u64, quantity: u64) -> (r: Self)
        ensures
            r.length == length,
            r.width == width,
            r.height == height,
            r.quantity == quantity,
            r.weight == 0,
            r.declared_value is None,
            r.description is None,
    {
        Product {
            length,
            width,
            height,
            quantity,
            weight: 0,
            declared_value: None,
            description: None,
        }
    }
}

impl Default for Product {
    /// The same empty product as [`Product::new`].
    fn default() -> (r: Self)
        ensures
            r.length == 0,
            r.width == 0,
            r.height == 0,
            r.quantity == 0,
            r.weight == 0,
            r.declared_value is None,
            r.description is None,
    {
        Product::new()
    }
}

/// A quoted carrier service: the price of carrying the consignment,
/// with descriptive detail.  Services appear in a response keyed by
/// service name.
#[derive(Debug)]
pub struct Service {
    pub price: Money,
    /// Quoted transit time, free text, when the carrier states one.
    pub transit_time: Option<String>,
    /// Free-text description of the service, when the carrier gives one.
    pub description: Option<String>,
}

impl Service {
    /// A service quoted at `price`, with no descriptive detail yet.
    pub fn new(price: Money) -> (r: Self)
        ensures
            r.price == price,
            r.transit_time is None,
            r.description is None,
    {
        Service { price, transit_time: None, description: None }
    }
}

} // verus!
