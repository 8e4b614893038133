//! The rules of the order endpoints: which row an ordered item is recorded
//! as, which query parameter names the item, and what each endpoint answers
//! for each outcome of its database statement.

use vstd::prelude::*;
use rand::Rng;
use crate::decimal::{decimal, is_decimal_text, lemma_decimal_reads_back};
use crate::request::{GetItemResponse, Item, Order, OrderStatus, Table};
use crate::response::{
    is_text, text_response, Body, DbError, Response, STATUS_BAD_REQUEST, STATUS_CONFLICT,
    STATUS_INTERNAL_SERVER_ERROR, STATUS_NOT_FOUND, STATUS_OK,
};
use crate::text::{debug_str, debug_string, join3, with_number};

verus! {

/// A row of the `Orders` table, as it is inserted.
#[derive(Clone, Debug)]
pub struct OrderRow {
    pub table_no: u32,
    pub item_name: String,
    pub quantity: u32,
    pub preparation_time: u32,
    pub status: String,
}

/// The fewest minutes an ordered unit takes to prepare.
pub const MIN_MINUTES_PER_UNIT: u32 = 5;
/// One more than the most minutes an ordered unit takes to prepare.
pub const MAX_MINUTES_PER_UNIT_EXCLUSIVE: u32 = 16;

/// The status of an order line that is being prepared.
pub open spec fn in_progress() -> Seq<char> {
    "InProgress"@
}

/// `row` records `item` for table `table`, in progress, prepared in
/// `minutes` minutes per unit.
pub open spec fn records(row: OrderRow, table: u32, item: Item, minutes: nat) -> bool {
    &&& row.table_no == table
    &&& row.item_name@ == item.item_name@
    &&& row.quantity == item.item_quantity
    &&& row.preparation_time == item.item_quantity * minutes
    &&& row.status@ == in_progress()
}

/// A recorded row holds the ordering table, the item's name and quantity,
/// the status `InProgress`, and the quantity times the minutes per unit as
/// its preparation time.
pub proof fn lemma_records_fields(row: OrderRow, table: u32, item: Item, minutes: nat)
    requires
        records(row, table, item, minutes),
    ensures
        row.table_no == table,
        row.item_name@ == item.item_name@,
        row.quantity == item.item_quantity,
        row.preparation_time == item.item_quantity * minutes,
        row.status@ == "InProgress"@,
{
}

/// Draws a number from `low..high`: `rand::thread_rng()` followed by
/// `Rng::gen_range(low..high)`, which gives some value of the half-open range
/// (and panics only on an empty one, which `requires` leaves out). Which value
/// is left to chance.
#[verifier::external_body]
fn random_in_range(low: u32, high: u32) -> (m: u32)
    requires
        low < high,
    ensures
        low <= m < high,
{
    rand::thread_rng().gen_range(low..high)
}

/// The row for `item` at table `table` when each unit takes `minutes`
/// minutes; `None` where the preparation time does not fit in a `u32`.
pub fn order_row(table: u32, item: &Item, minutes: u32) -> (r: Option<OrderRow>)
    ensures
        r is Some <==> item.item_quantity * minutes <= u32::MAX,
        r matches Some(row) ==> records(row, table, *item, minutes as nat),
        r matches Some(row) ==> row.table_no == table && row.item_name@ == item.item_name@
            && row.quantity == item.item_quantity && row.preparation_time == item.item_quantity
            * minutes && row.status@ == "InProgress"@,
{
    match item.item_quantity.checked_mul(minutes) {
        Some(preparation_time) => Some(
            OrderRow {
                table_no: table,
                item_name: item.item_name.clone(),
                quantity: item.item_quantity,
                preparation_time,
                status: String::from_str("InProgress"),
            },
        ),
        None => None,
    }
}

/// `r` is what ordering `item` at table `table` gives when each unit takes
/// `minutes` minutes: a row recording it exactly when the preparation time
/// fits in a `u32`, and `None` otherwise.
pub open spec fn outcome_for_minutes(r: Option<OrderRow>, table: u32, item: Item, minutes: nat) -> bool {
    &&& (r is Some <==> item.item_quantity * minutes <= u32::MAX)
    &&& (r matches Some(row) ==> records(row, table, item, minutes))
}

/// The row recorded for `item` when it is ordered at table `table`: the
/// minutes per unit are drawn at random from 5 to 15. `None` where the
/// preparation time for the drawn minutes does not fit in a `u32`; that
/// cannot happen when fifteen times the quantity fits.
pub fn new_order_row(table: u32, item: &Item) -> (r: Option<OrderRow>)
    ensures
        exists|m: nat|
            MIN_MINUTES_PER_UNIT <= m < MAX_MINUTES_PER_UNIT_EXCLUSIVE
                && #[trigger] outcome_for_minutes(r, table, *item, m),
        r matches Some(row) ==> exists|m: nat|
            MIN_MINUTES_PER_UNIT <= m < MAX_MINUTES_PER_UNIT_EXCLUSIVE
                && #[trigger] records(row, table, *item, m),
        item.item_quantity * 15 <= u32::MAX ==> r is Some,
{
    let minutes = random_in_range(MIN_MINUTES_PER_UNIT, MAX_MINUTES_PER_UNIT_EXCLUSIVE);
    let r = order_row(table, item, minutes);
    proof {
        if item.item_quantity * 15 <= u32::MAX {
            assert(item.item_quantity * minutes <= item.item_quantity * 15) by (nonlinear_arith)
                requires
                    minutes <= 15,
            ;
        }
        assert(outcome_for_minutes(r, table, *item, minutes as nat));
        if r is Some {
            assert(records(r->0, table, *item, minutes as nat));
        }
    }
    r
}

/// The answer to a placed order: its status, in progress.
pub fn order_placed_response() -> (r: Response)
    ensures
        r.status == STATUS_OK,
        r.body matches Body::OrderStatus(s) && s.status@ == in_progress(),
{
    Response {
        status: STATUS_OK,
        body: Body::OrderStatus(OrderStatus { status: String::from_str("InProgress") }),
    }
}

/// The answer to viewing the order of table `table`, given the lines that
/// the lookup of its in-progress rows gave back.
pub fn view_order_response(table: u32, fetched: Result<Vec<Item>, DbError>) -> (r: Response)
    ensures
        match fetched {
            Ok(items) => r.status == STATUS_OK && (r.body matches Body::Table(t) && t.table_no
                == table && t.order.items == items),
            Err(DbError::RowNotFound) => is_text(
                r,
                STATUS_NOT_FOUND,
                "Could not found order details"@,
            ),
            Err(DbError::Other) => is_text(
                r,
                STATUS_INTERNAL_SERVER_ERROR,
                "Faile to fetch order details"@,
            ),
        },
{
    match fetched {
        Ok(items) => Response {
            status: STATUS_OK,
            body: Body::Table(Table { table_no: table, order: Order { items } }),
        },
        Err(DbError::RowNotFound) => text_response(
            STATUS_NOT_FOUND,
            String::from_str("Could not found order details"),
        ),
        Err(DbError::Other) => text_response(
            STATUS_INTERNAL_SERVER_ERROR,
            String::from_str("Faile to fetch order details"),
        ),
    }
}

/// The answer to removing the in-progress order of a table.
pub fn delete_order_response(outcome: Result<(), DbError>) -> (r: Response)
    ensures
        match outcome {
            Ok(()) => is_text(r, STATUS_OK, "Successfully removed order"@),
            Err(DbError::RowNotFound) => is_text(
                r,
                STATUS_NOT_FOUND,
                "Could not found order details"@,
            ),
            Err(DbError::Other) => is_text(
                r,
                STATUS_INTERNAL_SERVER_ERROR,
                "Faile to remove order details"@,
            ),
        },
{
    match outcome {
        Ok(()) => text_response(STATUS_OK, String::from_str("Successfully removed order")),
        Err(DbError::RowNotFound) => text_response(
            STATUS_NOT_FOUND,
            String::from_str("Could not found order details"),
        ),
        Err(DbError::Other) => text_response(
            STATUS_INTERNAL_SERVER_ERROR,
            String::from_str("Faile to remove order details"),
        ),
    }
}

/// The answer when the bill of table `table` could not be computed.
pub fn bill_failure_response(table: u32) -> (r: Response)
    ensures
        is_text(
            r,
            STATUS_INTERNAL_SERVER_ERROR,
            "Failed to fetch bill for table_no "@ + decimal(table as nat),
        ),
{
    text_response(STATUS_INTERNAL_SERVER_ERROR, with_number("Failed to fetch bill for table_no ", table))
}

/// The answer to settling the in-progress orders of table `table`.
pub fn settle_order_response(table: u32, outcome: Result<(), DbError>) -> (r: Response)
    ensures
        match outcome {
            Ok(()) => is_text(
                r,
                STATUS_OK,
                "Orders are settled for the table_no: "@ + decimal(table as nat),
            ),
            Err(DbError::RowNotFound) => is_text(
                r,
                STATUS_NOT_FOUND,
                "Could not found any inprogress order for the table_no: "@ + decimal(table as nat),
            ),
            Err(DbError::Other) => is_text(
                r,
                STATUS_INTERNAL_SERVER_ERROR,
                "Could not able to settle the order of the table_no: "@ + decimal(table as nat),
            ),
        },
{
    match outcome {
        Ok(()) => text_response(STATUS_OK, with_number("Orders are settled for the table_no: ", table)),
        Err(DbError::RowNotFound) => text_response(
            STATUS_NOT_FOUND,
            with_number("Could not found any inprogress order for the table_no: ", table),
        ),
        Err(DbError::Other) => text_response(
            STATUS_INTERNAL_SERVER_ERROR,
            with_number("Could not able to settle the order of the table_no: ", table),
        ),
    }
}

/// The value that the query parameters give to `key`: that of the first pair
/// whose name is `key`, if any.
pub open spec fn query_value(query: Seq<(String, String)>, key: Seq<char>) -> Option<Seq<char>>
    decreases query.len(),
{
    if query.len() == 0 {
        None
    } else if query[0].0@ == key {
        Some(query[0].1@)
    } else {
        query_value(query.drop_first(), key)
    }
}

/// The query parameters give `key` the value of the first pair named `key`,
/// unchanged, and no value when no pair is named `key`.
pub proof fn lemma_query_value_is_first_match(query: Seq<(String, String)>, key: Seq<char>)
    ensures
        query_value(query, key) is None <==> forall|i: int|
            0 <= i < query.len() ==> (#[trigger] query[i]).0@ != key,
        forall|i: int|
            0 <= i < query.len() && (#[trigger] query[i]).0@ == key && (forall|j: int|
                0 <= j < i ==> query[j].0@ != key) ==> query_value(query, key) == Some(
                query[i].1@,
            ),
    decreases query.len(),
{
    if query.len() > 0 {
        let rest = query.drop_first();
        lemma_query_value_is_first_match(rest, key);
        assert forall|i: int| 1 <= i < query.len() implies query[i] == rest[i - 1] by {}
        if query[0].0@ != key {
            assert forall|i: int|
                0 <= i < query.len() && (#[trigger] query[i]).0@ == key && (forall|j: int|
                    0 <= j < i ==> query[j].0@ != key) implies query_value(query, key) == Some(
                query[i].1@,
            ) by {
                assert(rest[i - 1] == query[i]);
                assert forall|j: int| 0 <= j < i - 1 implies rest[j].0@ != key by {
                    assert(rest[j] == query[j + 1]);
                }
            }
            if query_value(query, key) is None {
                assert forall|i: int| 0 <= i < query.len() implies (#[trigger] query[i]).0@
                    != key by {
                    if i > 0 {
                        assert(rest[i - 1] == query[i]);
                    }
                }
            } else {
                let k = choose|k: int| 0 <= k < rest.len() && (#[trigger] rest[k]).0@ == key;
                assert(query[k + 1] == rest[k]);
            }
        } else {
            assert forall|i: int|
                0 <= i < query.len() && (#[trigger] query[i]).0@ == key && (forall|j: int|
                    0 <= j < i ==> query[j].0@ != key) implies query_value(query, key) == Some(
                query[i].1@,
            ) by {
                if i > 0 {
                    assert(query[0].0@ != key);
                }
            }
        }
    }
}

/// The value of the query parameter named `item_name`: that of the first pair
/// so named, unchanged. Parameters read from a query map never repeat a name,
/// so there the first pair is the only one.
pub fn item_name_param(query: &Vec<(String, String)>) -> (r: Option<String>)
    ensures
        match r {
            Some(v) => query_value(query@, "item_name"@) == Some(v@),
            None => query_value(query@, "item_name"@) is None,
        },
        r is None <==> forall|i: int|
            0 <= i < query@.len() ==> (#[trigger] query@[i]).0@ != "item_name"@,
        forall|i: int|
            0 <= i < query@.len() && (#[trigger] query@[i]).0@ == "item_name"@ && (forall|j: int|
                0 <= j < i ==> query@[j].0@ != "item_name"@) ==> (r matches Some(v) && v@
                == query@[i].1@),
{
    proof {
        lemma_query_value_is_first_match(query@, "item_name"@);
    }
    let key = String::from_str("item_name");
    let mut i: usize = 0;
    assert(query@.skip(0) =~= query@);
    while i < query.len()
        invariant
            i <= query.len(),
            key@ == "item_name"@,
            query_value(query@, key@) == query_value(query@.skip(i as int), key@),
        decreases query.len() - i,
    {
        assert(query@.skip(i as int).drop_first() =~= query@.skip(i + 1));
        if query[i].0 == key {
            proof {
                lemma_query_value_is_first_match(query@, "item_name"@);
            }
            return Some(query[i].1.clone());
        }
        i = i + 1;
    }
    None
}

/// The first step of looking up an item of an order: the item's name, or
/// the answer when the `item_name` parameter is missing.
pub fn get_item_request(query: &Vec<(String, String)>) -> (r: Result<String, Response>)
    ensures
        match r {
            Ok(name) => query_value(query@, "item_name"@) == Some(name@),
            Err(resp) => query_value(query@, "item_name"@) is None && is_text(
                resp,
                STATUS_BAD_REQUEST,
                "Please pass item_name in query paramater"@,
            ),
        },
{
    match item_name_param(query) {
        Some(name) => Ok(name),
        None => Err(
            text_response(
                STATUS_BAD_REQUEST,
                String::from_str("Please pass item_name in query paramater"),
            ),
        ),
    }
}

/// The answer to looking up item `name` of table `table`, given the
/// quantity and preparation time of the row found, or why none was found.
pub fn get_item_response(table: u32, name: String, fetched: Result<(u32, u32), DbError>) -> (r:
    Response)
    ensures
        match fetched {
            Ok((quantity, preparation_time)) => r.status == STATUS_OK && (r.body matches Body::Item(
                g,
            ) && g.table_no == table && g.name == name && g.quantity == quantity
                && g.preparation_time == preparation_time),
            Err(_) => is_text(r, STATUS_NOT_FOUND, "Item not found"@),
        },
{
    match fetched {
        Ok((quantity, preparation_time)) => Response {
            status: STATUS_OK,
            body: Body::Item(GetItemResponse { table_no: table, name, quantity, preparation_time }),
        },
        Err(_) => text_response(STATUS_NOT_FOUND, String::from_str("Item not found")),
    }
}

/// The first step of removing an item from an order: the item's name, or
/// the answer when the `item_name` parameter is missing.
pub fn delete_item_request(query: &Vec<(String, String)>) -> (r: Result<String, Response>)
    ensures
        match r {
            Ok(name) => query_value(query@, "item_name"@) == Some(name@),
            Err(resp) => query_value(query@, "item_name"@) is None && is_text(
                resp,
                STATUS_BAD_REQUEST,
                "Failed since item_name is not passed"@,
            ),
        },
{
    match item_name_param(query) {
        Some(name) => Ok(name),
        None => Err(
            text_response(
                STATUS_BAD_REQUEST,
                String::from_str("Failed since item_name is not passed"),
            ),
        ),
    }
}

/// The answer to removing item `name` from the order of table `table`.
pub fn delete_item_response(table: u32, name: &String, outcome: Result<(), DbError>) -> (r:
    Response)
    ensures
        match outcome {
            Ok(()) => is_text(
                r,
                STATUS_OK,
                "For table "@ + decimal(table as nat) + " removed item "@ + name@,
            ),
            Err(DbError::RowNotFound) => is_text(
                r,
                STATUS_NOT_FOUND,
                "Failed to delete the item "@ + name@ + " for table "@ + decimal(table as nat),
            ),
            Err(DbError::Other) => is_text(
                r,
                STATUS_CONFLICT,
                "Could not able to settle the order of the table"@,
            ),
        },
{
    match outcome {
        Ok(()) => {
            let head = with_number("For table ", table);
            let text = join3(head.as_str(), " removed item ", name.as_str());
            assert(text@ =~= "For table "@ + decimal(table as nat) + " removed item "@ + name@);
            text_response(STATUS_OK, text)
        },
        Err(DbError::RowNotFound) => {
            let tail = with_number(" for table ", table);
            let text = join3("Failed to delete the item ", name.as_str(), tail.as_str());
            assert(text@ =~= "Failed to delete the item "@ + name@ + " for table "@ + decimal(
                table as nat,
            ));
            text_response(STATUS_NOT_FOUND, text)
        },
        Err(DbError::Other) => text_response(
            STATUS_CONFLICT,
            String::from_str("Could not able to settle the order of the table"),
        ),
    }
}

/// What `{:?}` writes for an `Item`.
pub open spec fn item_debug(item: Item) -> Seq<char> {
    "Item { item_name: "@ + debug_str(item.item_name@) + ", item_quantity: "@ + decimal(
        item.item_quantity as nat,
    ) + " }"@
}

/// The text of an item shows its name as `{:?}` writes a string, and its
/// whole quantity written in base ten.
pub proof fn lemma_item_debug_shows_quantity(item: Item)
    ensures
        exists|qt: Seq<char>|
            #[trigger] is_decimal_text(qt, item.item_quantity as nat) && item_debug(item)
                == "Item { item_name: "@ + debug_str(item.item_name@) + ", item_quantity: "@ + qt
                + " }"@,
{
    lemma_decimal_reads_back(item.item_quantity as nat);
    assert(is_decimal_text(decimal(item.item_quantity as nat), item.item_quantity as nat));
}

/// Formats `item` as `{:?}` does.
pub fn item_debug_text(item: &Item) -> (s: String)
    ensures
        s@ == item_debug(*item),
        exists|qt: Seq<char>|
            #[trigger] is_decimal_text(qt, item.item_quantity as nat) && s@ == "Item { item_name: "@
                + debug_str(item.item_name@) + ", item_quantity: "@ + qt + " }"@,
{
    proof {
        lemma_item_debug_shows_quantity(*item);
    }
    let name = debug_string(item.item_name.as_str());
    let mut s = join3("Item { item_name: ", name.as_str(), ", item_quantity: ");
    let quantity = with_number("", item.item_quantity);
    s.append(quantity.as_str());
    s.append(" }");
    proof {
        assert(""@ + decimal(item.item_quantity as nat) =~= decimal(item.item_quantity as nat)) by {
            reveal_strlit("");
        }
    }
    s
}

/// The answer to adding `item` to the order of table `table`.
pub fn add_item_response(table: u32, item: &Item, outcome: Result<(), DbError>) -> (r: Response)
    ensures
        match outcome {
            Ok(()) => is_text(
                r,
                STATUS_OK,
                "successfully added item "@ + item_debug(*item) + " for table "@ + decimal(
                    table as nat,
                ),
            ),
            Err(_) => is_text(
                r,
                STATUS_INTERNAL_SERVER_ERROR,
                "Failed to add item to order of table "@ + decimal(table as nat),
            ),
        },
{
    match outcome {
        Ok(()) => {
            let shown = item_debug_text(item);
            let tail = with_number(" for table ", table);
            let text = join3("successfully added item ", shown.as_str(), tail.as_str());
            assert(text@ =~= "successfully added item "@ + item_debug(*item) + " for table "@
                + decimal(table as nat));
            text_response(STATUS_OK, text)
        },
        Err(_) => text_response(
            STATUS_INTERNAL_SERVER_ERROR,
            with_number("Failed to add item to order of table ", table),
        ),
    }
}

} // verus!
