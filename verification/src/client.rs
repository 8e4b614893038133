//! The load client: the requests it sends for one table, in order, and the
//! orders it places.

use vstd::prelude::*;
use crate::decimal::{decimal, is_digit, lemma_decimal_prefix_determines, u32_to_decimal};
use crate::request::{Item, Order, Table};

verus! {

/// Client settings: logging and the address of the server.
#[derive(Clone, Debug)]
pub struct Args {
    pub log_level: String,
    pub enable_dev_log_format: bool,
    pub server_ip: String,
}

/// The HTTP method of a request.
#[derive(Clone, Copy, Debug, PartialEq, Eq, Structural)]
pub enum Method {
    Get,
    Post,
    Delete,
}

/// What a request carries as its JSON body.
#[derive(Clone, Copy, Debug, PartialEq, Eq, Structural)]
pub enum Payload {
    /// No body.
    Empty,
    /// The order of the table.
    TableOrder,
    /// The extra item that is added and then removed again.
    ExtraItem,
}

/// One request of the script: method, full URL, and body.
#[derive(Clone, Debug)]
pub struct PlannedRequest {
    pub method: Method,
    pub url: String,
    pub payload: Payload,
}

impl View for PlannedRequest {
    type V = (Method, Seq<char>, Payload);

    open spec fn view(&self) -> (Method, Seq<char>, Payload) {
        (self.method, self.url@, self.payload)
    }
}

/// The URL of `endpoint` of table `table` on the server at `ip`.
pub open spec fn endpoint_url(ip: Seq<char>, table: nat, endpoint: Seq<char>) -> Seq<char> {
    "http://"@ + ip + "/api/v1/"@ + decimal(table) + endpoint
}

/// The names of the items of an order.
pub open spec fn item_names(items: Seq<Item>) -> Seq<Seq<char>> {
    items.map_values(|it: Item| it.item_name@)
}

/// The request to look up the ordered item named `name`.
pub open spec fn item_lookup(name: Seq<char>) -> (Method, Seq<char>, Payload) {
    (Method::Get, "/order/item/get?item_name="@ + name, Payload::Empty)
}

/// The requests for one table, each with its endpoint below the table's path:
/// place the order, view it, look up each ordered item by name, add the
/// extra item, remove it by name, ask for the bill, settle.
pub open spec fn table_requests(names: Seq<Seq<char>>, extra: Seq<char>) -> Seq<
    (Method, Seq<char>, Payload),
> {
    seq![
        (Method::Post, "/order/add"@, Payload::TableOrder),
        (Method::Get, "/order/view"@, Payload::Empty),
    ] + names.map_values(|n: Seq<char>| item_lookup(n)) + seq![
        (Method::Post, "/order/item/add"@, Payload::ExtraItem),
        (Method::Delete, "/order/item/delete?item_name="@ + extra, Payload::Empty),
        (Method::Get, "/order/bill"@, Payload::Empty),
        (Method::Post, "/order/settle"@, Payload::Empty),
    ]
}

/// The requests for one table with their full URLs.
pub open spec fn script(ip: Seq<char>, table: nat, names: Seq<Seq<char>>, extra: Seq<char>) -> Seq<
    (Method, Seq<char>, Payload),
> {
    table_requests(names, extra).map_values(
        |r: (Method, Seq<char>, Payload)| (r.0, endpoint_url(ip, table, r.1), r.2),
    )
}

fn request(ip: &String, table: &String, method: Method, endpoint: &str, payload: Payload) -> (r:
    PlannedRequest)
    ensures
        r@ == (method, "http://"@ + ip@ + "/api/v1/"@ + table@ + endpoint@, payload),
{
    let mut url = String::from_str("http://");
    url.append(ip.as_str());
    url.append("/api/v1/");
    url.append(table.as_str());
    url.append(endpoint);
    PlannedRequest { method, url, payload }
}

fn request_with_name(
    ip: &String,
    table: &String,
    method: Method,
    endpoint: &str,
    name: &String,
) -> (r: PlannedRequest)
    ensures
        r@ == (method, "http://"@ + ip@ + "/api/v1/"@ + table@ + (endpoint@ + name@), Payload::Empty),
{
    let mut url = String::from_str("http://");
    url.append(ip.as_str());
    url.append("/api/v1/");
    url.append(table.as_str());
    url.append(endpoint);
    url.append(name.as_str());
    proof {
        assert("http://"@ + ip@ + "/api/v1/"@ + table@ + endpoint@ + name@ =~= "http://"@ + ip@
            + "/api/v1/"@ + table@ + (endpoint@ + name@));
    }
    PlannedRequest { method, url, payload: Payload::Empty }
}

/// The script for a table, request by request: place the order, view it,
/// then exactly one lookup per ordered item, in the order's order, naming
/// that item; then add the extra item, remove it by name, ask for the bill,
/// and settle. Every URL is below `http://<ip>/api/v1/<table>`.
pub proof fn lemma_script_requests(ip: Seq<char>, t: nat, items: Seq<Item>, extra: Seq<char>)
    ensures
        script(ip, t, item_names(items), extra).len() == items.len() + 6,
        ({
            let s = script(ip, t, item_names(items), extra);
            let base = "http://"@ + ip + "/api/v1/"@ + decimal(t);
            let n = items.len() as int;
            &&& s[0] == (Method::Post, base + "/order/add"@, Payload::TableOrder)
            &&& s[1] == (Method::Get, base + "/order/view"@, Payload::Empty)
            &&& forall|k: int|
                0 <= k < n ==> #[trigger] s[k + 2] == (
                    Method::Get,
                    base + "/order/item/get?item_name="@ + items[k].item_name@,
                    Payload::Empty,
                )
            &&& s[n + 2] == (Method::Post, base + "/order/item/add"@, Payload::ExtraItem)
            &&& s[n + 3] == (
                Method::Delete,
                base + "/order/item/delete?item_name="@ + extra,
                Payload::Empty,
            )
            &&& s[n + 4] == (Method::Get, base + "/order/bill"@, Payload::Empty)
            &&& s[n + 5] == (Method::Post, base + "/order/settle"@, Payload::Empty)
        }),
{
    let names = item_names(items);
    let reqs = table_requests(names, extra);
    let s = script(ip, t, names, extra);
    let base = "http://"@ + ip + "/api/v1/"@ + decimal(t);
    let n = items.len() as int;
    let lookups = names.map_values(|nm: Seq<char>| item_lookup(nm));
    assert(names.len() == n);
    assert(reqs.len() == n + 6);
    assert forall|k: int| 0 <= k < n implies #[trigger] s[k + 2] == (
        Method::Get,
        base + "/order/item/get?item_name="@ + items[k].item_name@,
        Payload::Empty,
    ) by {
        assert(reqs[k + 2] == lookups[k]);
        assert(names[k] == items[k].item_name@);
        assert(base + ("/order/item/get?item_name="@ + items[k].item_name@) =~= base
            + "/order/item/get?item_name="@ + items[k].item_name@);
    }
    assert(reqs[n + 3] == (Method::Delete, "/order/item/delete?item_name="@ + extra, Payload::Empty));
    assert(base + ("/order/item/delete?item_name="@ + extra) =~= base + "/order/item/delete?item_name="@
        + extra);
}

/// The requests the client sends, in order, to exercise the order endpoints
/// for `table`, with `item` as the extra item.
pub fn order_script(server_ip: &String, table: &Table, item: &Item) -> (plan: Vec<PlannedRequest>)
    ensures
        plan@.map_values(|r: PlannedRequest| r@) == script(
            server_ip@,
            table.table_no as nat,
            item_names(table.order.items@),
            item.item_name@,
        ),
        plan@.len() == table.order.items@.len() + 6,
        ({
            let base = "http://"@ + server_ip@ + "/api/v1/"@ + decimal(table.table_no as nat);
            let n = table.order.items@.len() as int;
            &&& plan@[0]@ == (Method::Post, base + "/order/add"@, Payload::TableOrder)
            &&& plan@[1]@ == (Method::Get, base + "/order/view"@, Payload::Empty)
            &&& forall|k: int|
                0 <= k < n ==> #[trigger] plan@[k + 2]@ == (
                    Method::Get,
                    base + "/order/item/get?item_name="@ + table.order.items@[k].item_name@,
                    Payload::Empty,
                )
            &&& plan@[n + 2]@ == (Method::Post, base + "/order/item/add"@, Payload::ExtraItem)
            &&& plan@[n + 3]@ == (
                Method::Delete,
                base + "/order/item/delete?item_name="@ + item.item_name@,
                Payload::Empty,
            )
            &&& plan@[n + 4]@ == (Method::Get, base + "/order/bill"@, Payload::Empty)
            &&& plan@[n + 5]@ == (Method::Post, base + "/order/settle"@, Payload::Empty)
        }),
{
    proof {
        lemma_script_requests(server_ip@, table.table_no as nat, table.order.items@, item.item_name@);
    }
    let ghost ip = server_ip@;
    let ghost t = table.table_no as nat;
    let ghost names = item_names(table.order.items@);
    let ghost f = |r: (Method, Seq<char>, Payload)| (r.0, endpoint_url(ip, t, r.1), r.2);
    let number = u32_to_decimal(table.table_no);
    let mut plan: Vec<PlannedRequest> = Vec::new();
    plan.push(request(server_ip, &number, Method::Post, "/order/add", Payload::TableOrder));
    plan.push(request(server_ip, &number, Method::Get, "/order/view", Payload::Empty));
    let ghost head = seq![
        (Method::Post, "/order/add"@, Payload::TableOrder),
        (Method::Get, "/order/view"@, Payload::Empty),
    ];
    assert(plan@.map_values(|r: PlannedRequest| r@) =~= head.map_values(f));
    let items = &table.order.items;
    let mut i: usize = 0;
    while i < items.len()
        invariant
            i <= items.len(),
            items@ == table.order.items@,
            number@ == decimal(t),
            ip == server_ip@,
            t == table.table_no as nat,
            names == item_names(items@),
            f == (|r: (Method, Seq<char>, Payload)| (r.0, endpoint_url(ip, t, r.1), r.2)),
            plan@.map_values(|r: PlannedRequest| r@) =~= (head + names.take(i as int).map_values(
                |n: Seq<char>| item_lookup(n),
            )).map_values(f),
        decreases items.len() - i,
    {
        let req = request_with_name(
            server_ip,
            &number,
            Method::Get,
            "/order/item/get?item_name=",
            &items[i].item_name,
        );
        let ghost before = plan@;
        plan.push(req);
        proof {
            assert(names.take(i + 1) =~= names.take(i as int).push(items@[i as int].item_name@));
            assert(plan@ =~= before.push(req));
            assert(plan@.map_values(|r: PlannedRequest| r@) =~= before.map_values(
                |r: PlannedRequest| r@,
            ).push(req@));
            assert(names.take(i + 1).map_values(|n: Seq<char>| item_lookup(n)) =~= names.take(
                i as int,
            ).map_values(|n: Seq<char>| item_lookup(n)).push(item_lookup(names[i as int])));
            assert((head + names.take(i + 1).map_values(|n: Seq<char>| item_lookup(n))) =~= (head
                + names.take(i as int).map_values(|n: Seq<char>| item_lookup(n))).push(
                item_lookup(names[i as int]),
            ));
        }
        i = i + 1;
    }
    let ghost middle = plan@;
    let r1 = request(server_ip, &number, Method::Post, "/order/item/add", Payload::ExtraItem);
    let r2 = request_with_name(
        server_ip,
        &number,
        Method::Delete,
        "/order/item/delete?item_name=",
        &item.item_name,
    );
    let r3 = request(server_ip, &number, Method::Get, "/order/bill", Payload::Empty);
    let r4 = request(server_ip, &number, Method::Post, "/order/settle", Payload::Empty);
    let ghost tail_views = seq![r1@, r2@, r3@, r4@];
    plan.push(r1);
    plan.push(r2);
    plan.push(r3);
    plan.push(r4);
    proof {
        let tail = seq![
            (Method::Post, "/order/item/add"@, Payload::ExtraItem),
            (Method::Delete, "/order/item/delete?item_name="@ + item.item_name@, Payload::Empty),
            (Method::Get, "/order/bill"@, Payload::Empty),
            (Method::Post, "/order/settle"@, Payload::Empty),
        ];
        assert(tail_views =~= tail.map_values(f));
        assert(plan@.map_values(|r: PlannedRequest| r@) =~= middle.map_values(
            |r: PlannedRequest| r@,
        ) + tail_views);
        assert(names.take(items.len() as int) =~= names);
        let body = head + names.map_values(|n: Seq<char>| item_lookup(n));
        assert(table_requests(names, item.item_name@) == body + tail);
        assert(middle.map_values(|r: PlannedRequest| r@) =~= body.map_values(f));
        assert(plan@.map_values(|r: PlannedRequest| r@) =~= (body + tail).map_values(f));
        let sc = script(server_ip@, table.table_no as nat, names, item.item_name@);
        assert(plan@.map_values(|r: PlannedRequest| r@) == sc);
        assert forall|i: int| 0 <= i < plan@.len() implies #[trigger] plan@[i]@ == sc[i] by {
            assert(plan@.map_values(|r: PlannedRequest| r@)[i] == plan@[i]@);
        }
        let n = table.order.items@.len() as int;
        assert forall|k: int| 0 <= k < n implies #[trigger] plan@[k + 2]@ == sc[k + 2] by {
            assert(plan@[k + 2]@ == sc[k + 2]);
        }
    }
    plan
}

/// A URL of the script names one table and one endpoint: equal URLs with
/// endpoints that start with `/` have equal tables and equal endpoints.
pub proof fn lemma_endpoint_url_determines(
    ip: Seq<char>,
    t1: nat,
    t2: nat,
    e1: Seq<char>,
    e2: Seq<char>,
)
    requires
        e1.len() >= 1,
        e2.len() >= 1,
        e1[0] == '/',
        e2[0] == '/',
        endpoint_url(ip, t1, e1) == endpoint_url(ip, t2, e2),
    ensures
        t1 == t2,
        e1 == e2,
{
    let p = "http://"@ + ip + "/api/v1/"@;
    let x = decimal(t1) + e1;
    let y = decimal(t2) + e2;
    assert(endpoint_url(ip, t1, e1) =~= p + x);
    assert(endpoint_url(ip, t2, e2) =~= p + y);
    assert(x =~= (p + x).subrange(p.len() as int, (p + x).len() as int));
    assert(y =~= (p + y).subrange(p.len() as int, (p + y).len() as int));
    assert(!is_digit('/'));
    lemma_decimal_prefix_determines(t1, t2, e1, e2);
}

/// Every endpoint of the requests for a table starts with `/`.
pub proof fn lemma_table_requests_start_with_slash(names: Seq<Seq<char>>, extra: Seq<char>)
    ensures
        forall|i: int|
            0 <= i < table_requests(names, extra).len() ==> (#[trigger] table_requests(
                names,
                extra,
            )[i]).1.len() >= 1 && table_requests(names, extra)[i].1[0] == '/',
{
    reveal_strlit("/order/add");
    reveal_strlit("/order/view");
    reveal_strlit("/order/item/get?item_name=");
    reveal_strlit("/order/item/add");
    reveal_strlit("/order/item/delete?item_name=");
    reveal_strlit("/order/bill");
    reveal_strlit("/order/settle");
    let reqs = table_requests(names, extra);
    let lookups = names.map_values(|n: Seq<char>| item_lookup(n));
    assert forall|i: int| 0 <= i < reqs.len() implies (#[trigger] reqs[i]).1.len() >= 1
        && reqs[i].1[0] == '/' by {
        if 2 <= i < 2 + names.len() {
            assert(reqs[i] == lookups[i - 2]);
            assert(("/order/item/get?item_name="@ + names[i - 2])[0] == '/');
        } else if i == 2 + names.len() + 1 {
            assert(("/order/item/delete?item_name="@ + extra)[0] == '/');
        }
    }
}

/// The requests the client sends for two different tables never go to the
/// same URL, so the tables exercised side by side do not touch each other's
/// orders.
pub proof fn lemma_scripts_of_distinct_tables_disjoint(
    ip: Seq<char>,
    t1: nat,
    names1: Seq<Seq<char>>,
    extra1: Seq<char>,
    t2: nat,
    names2: Seq<Seq<char>>,
    extra2: Seq<char>,
)
    requires
        t1 != t2,
    ensures
        forall|i: int, j: int|
            0 <= i < script(ip, t1, names1, extra1).len() && 0 <= j < script(
                ip,
                t2,
                names2,
                extra2,
            ).len() ==> (#[trigger] script(ip, t1, names1, extra1)[i]).1 != (#[trigger] script(
                ip,
                t2,
                names2,
                extra2,
            )[j]).1,
{
    lemma_table_requests_start_with_slash(names1, extra1);
    lemma_table_requests_start_with_slash(names2, extra2);
    let s1 = script(ip, t1, names1, extra1);
    let s2 = script(ip, t2, names2, extra2);
    let r1 = table_requests(names1, extra1);
    let r2 = table_requests(names2, extra2);
    assert forall|i: int, j: int| 0 <= i < s1.len() && 0 <= j < s2.len() implies (
    #[trigger] s1[i]).1 != (#[trigger] s2[j]).1 by {
        assert(s1[i].1 == endpoint_url(ip, t1, r1[i].1));
        assert(s2[j].1 == endpoint_url(ip, t2, r2[j].1));
        assert(r1[i].1.len() >= 1 && r1[i].1[0] == '/');
        assert(r2[j].1.len() >= 1 && r2[j].1[0] == '/');
        if s1[i].1 == s2[j].1 {
            lemma_endpoint_url_determines(ip, t1, t2, r1[i].1, r2[j].1);
        }
    }
}

/// The number of tables the client exercises side by side.
pub const TABLE_COUNT: u32 = 10;

/// The order every exercised table places: two of `Item1` and one of `Item2`.
pub open spec fn is_demo_order(order: Order) -> bool {
    &&& order.items@.len() == 2
    &&& order.items@[0].item_name@ == "Item1"@ && order.items@[0].item_quantity == 2
    &&& order.items@[1].item_name@ == "Item2"@ && order.items@[1].item_quantity == 1
}

fn demo_order() -> (order: Order)
    ensures
        is_demo_order(order),
{
    let mut items: Vec<Item> = Vec::new();
    items.push(Item { item_name: String::from_str("Item1"), item_quantity: 2 });
    items.push(Item { item_name: String::from_str("Item2"), item_quantity: 1 });
    Order { items }
}

/// The tables the client exercises: numbers 1 to 10, each with the demo
/// order.
pub fn demo_tables() -> (tables: Vec<Table>)
    ensures
        tables@.len() == TABLE_COUNT,
        forall|i: int|
            0 <= i < tables@.len() ==> (#[trigger] tables@[i]).table_no == i + 1 && is_demo_order(
                tables@[i].order,
            ),
{
    let mut tables: Vec<Table> = Vec::new();
    let mut table_no: u32 = 1;
    while table_no <= TABLE_COUNT
        invariant
            1 <= table_no <= TABLE_COUNT + 1,
            tables@.len() == table_no - 1,
            forall|i: int|
                0 <= i < tables@.len() ==> (#[trigger] tables@[i]).table_no == i + 1
                    && is_demo_order(tables@[i].order),
        decreases TABLE_COUNT + 1 - table_no,
    {
        tables.push(Table { table_no, order: demo_order() });
        table_no = table_no + 1;
    }
    tables
}

/// The extra item every exercised table adds and removes: three of `Item3`.
pub fn demo_extra_item() -> (item: Item)
    ensures
        item.item_name@ == "Item3"@,
        item.item_quantity == 3,
{
    Item { item_name: String::from_str("Item3"), item_quantity: 3 }
}

} // verus!
