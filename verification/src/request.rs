//! The values that the endpoints take and give back.

use vstd::prelude::*;

verus! {

/// A line of an order: which menu item, and how many of it.
#[derive(Clone, Debug)]
pub struct Item {
    pub item_name: String,
    pub item_quantity: u32,
}

/// The items ordered in one request.
#[derive(Clone, Debug)]
pub struct Order {
    pub items: Vec<Item>,
}

/// A table with the in-progress order lines recorded for it.
#[derive(Clone, Debug)]
pub struct Table {
    pub table_no: u32,
    pub order: Order,
}

/// The status reported for a placed order.
#[derive(Clone, Debug)]
pub struct OrderStatus {
    pub status: String,
}

/// One recorded order line of a table.
#[derive(Clone, Debug)]
pub struct GetItemResponse {
    pub table_no: u32,
    pub name: String,
    pub quantity: u32,
    pub preparation_time: u32,
}

} // verus!
