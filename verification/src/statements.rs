//! The database statements the order endpoints issue, with their parameters
//! in binding order. The menu statements that bind prices are kept out of
//! this library, since prices are floating point.

use vstd::prelude::*;
use crate::ordermgmt::OrderRow;

verus! {

/// A parameter of a statement: an unsigned number stored as `OID`, or text.
#[derive(Clone, Debug)]
pub enum Param {
    Oid(u32),
    Text(String),
}

/// A statement's SQL text and its parameters, `$1` first.
#[derive(Clone, Debug)]
pub struct Statement {
    pub sql: String,
    pub params: Vec<Param>,
}

/// `p` is the number `v`.
pub open spec fn is_oid(p: Param, v: u32) -> bool {
    p matches Param::Oid(x) && x == v
}

/// `p` is the text `s`.
pub open spec fn is_text_param(p: Param, s: Seq<char>) -> bool {
    p matches Param::Text(t) && t@ == s
}

/// Records `row` in the `Orders` table.
pub fn insert_order_row_statement(row: OrderRow) -> (st: Statement)
    ensures
        st.sql@
            == "INSERT into Orders (table_no, item_name, quantity, preparation_time, status) VALUES($1, $2, $3, $4, $5)"@,
        st.params@.len() == 5,
        is_oid(st.params@[0], row.table_no),
        is_text_param(st.params@[1], row.item_name@),
        is_oid(st.params@[2], row.quantity),
        is_oid(st.params@[3], row.preparation_time),
        is_text_param(st.params@[4], row.status@),
{
    let mut params: Vec<Param> = Vec::new();
    params.push(Param::Oid(row.table_no));
    params.push(Param::Text(row.item_name));
    params.push(Param::Oid(row.quantity));
    params.push(Param::Oid(row.preparation_time));
    params.push(Param::Text(row.status));
    Statement {
        sql: String::from_str(
            "INSERT into Orders (table_no, item_name, quantity, preparation_time, status) VALUES($1, $2, $3, $4, $5)",
        ),
        params,
    }
}

/// Reads the in-progress rows of table `table`.
pub fn view_order_statement(table: u32) -> (st: Statement)
    ensures
        st.sql@ == "SELECT * from Orders WHERE table_no = $1 AND status = $2"@,
        st.params@.len() == 2,
        is_oid(st.params@[0], table),
        is_text_param(st.params@[1], "InProgress"@),
{
    let mut params: Vec<Param> = Vec::new();
    params.push(Param::Oid(table));
    params.push(Param::Text(String::from_str("InProgress")));
    Statement {
        sql: String::from_str("SELECT * from Orders WHERE table_no = $1 AND status = $2"),
        params,
    }
}

/// Removes the in-progress rows of table `table`.
pub fn delete_order_statement(table: u32) -> (st: Statement)
    ensures
        st.sql@ == "DELETE from Orders WHERE table_no = $1 AND status = $2"@,
        st.params@.len() == 2,
        is_oid(st.params@[0], table),
        is_text_param(st.params@[1], "InProgress"@),
{
    let mut params: Vec<Param> = Vec::new();
    params.push(Param::Oid(table));
    params.push(Param::Text(String::from_str("InProgress")));
    Statement {
        sql: String::from_str("DELETE from Orders WHERE table_no = $1 AND status = $2"),
        params,
    }
}

/// Sums quantity times menu price over the in-progress rows of table `table`.
pub fn table_bill_statement(table: u32) -> (st: Statement)
    ensures
        st.sql@
            == "SELECT COALESCE(SUM(order_item.quantity::bigint::float8 * menu_item.price), 0) AS total_bill FROM Orders order_item INNER JOIN Menu menu_item ON order_item.item_name = menu_item.item_name WHERE order_item.status = 'InProgress' AND order_item.table_no = $1"@,
        st.params@.len() == 1,
        is_oid(st.params@[0], table),
{
    let mut params: Vec<Param> = Vec::new();
    params.push(Param::Oid(table));
    Statement {
        sql: String::from_str(
            "SELECT COALESCE(SUM(order_item.quantity::bigint::float8 * menu_item.price), 0) AS total_bill FROM Orders order_item INNER JOIN Menu menu_item ON order_item.item_name = menu_item.item_name WHERE order_item.status = 'InProgress' AND order_item.table_no = $1",
        ),
        params,
    }
}

/// Marks the in-progress rows of table `table` as done.
pub fn settle_order_statement(table: u32) -> (st: Statement)
    ensures
        st.sql@
            == "UPDATE Orders SET status = 'Done' WHERE table_no = $1 AND status = 'InProgress'"@,
        st.params@.len() == 1,
        is_oid(st.params@[0], table),
{
    let mut params: Vec<Param> = Vec::new();
    params.push(Param::Oid(table));
    Statement {
        sql: String::from_str(
            "UPDATE Orders SET status = 'Done' WHERE table_no = $1 AND status = 'InProgress'",
        ),
        params,
    }
}

/// Reads the in-progress row of item `name` at table `table`.
pub fn get_item_statement(table: u32, name: &String) -> (st: Statement)
    ensures
        st.sql@
            == "SELECT * from Orders Where table_no = $1 AND status = 'InProgress' AND item_name = $2"@,
        st.params@.len() == 2,
        is_oid(st.params@[0], table),
        is_text_param(st.params@[1], name@),
{
    let mut params: Vec<Param> = Vec::new();
    params.push(Param::Oid(table));
    params.push(Param::Text(name.clone()));
    Statement {
        sql: String::from_str(
            "SELECT * from Orders Where table_no = $1 AND status = 'InProgress' AND item_name = $2",
        ),
        params,
    }
}

/// Removes the in-progress rows of item `name` at table `table`.
pub fn delete_item_statement(table: u32, name: &String) -> (st: Statement)
    ensures
        st.sql@
            == "DELETE from Orders Where table_no = $1 AND status = 'InProgress' And item_name = $2"@,
        st.params@.len() == 2,
        is_oid(st.params@[0], table),
        is_text_param(st.params@[1], name@),
{
    let mut params: Vec<Param> = Vec::new();
    params.push(Param::Oid(table));
    params.push(Param::Text(name.clone()));
    Statement {
        sql: String::from_str(
            "DELETE from Orders Where table_no = $1 AND status = 'InProgress' And item_name = $2",
        ),
        params,
    }
}

/// Reads the whole menu.
pub fn fetch_menu_statement() -> (st: Statement)
    ensures
        st.sql@ == "SELECT * from Menu"@,
        st.params@.len() == 0,
{
    Statement { sql: String::from_str("SELECT * from Menu"), params: Vec::new() }
}

/// Removes the menu item named `name`.
pub fn delete_menu_item_statement(name: &String) -> (st: Statement)
    ensures
        st.sql@ == "DELETE from Menu Where item_name = $1"@,
        st.params@.len() == 1,
        is_text_param(st.params@[0], name@),
{
    let mut params: Vec<Param> = Vec::new();
    params.push(Param::Text(name.clone()));
    Statement { sql: String::from_str("DELETE from Menu Where item_name = $1"), params }
}

/// Tells whether the menu holds an item named `name`.
pub fn menu_item_exists_statement(name: &String) -> (st: Statement)
    ensures
        st.sql@ == "SELECT 1 FROM Menu WHERE item_name = $1"@,
        st.params@.len() == 1,
        is_text_param(st.params@[0], name@),
{
    let mut params: Vec<Param> = Vec::new();
    params.push(Param::Text(name.clone()));
    Statement { sql: String::from_str("SELECT 1 FROM Menu WHERE item_name = $1"), params }
}

/// Creates the `Menu` table unless it exists.
pub fn create_menu_table_statement() -> (st: Statement)
    ensures
        st.sql@
            == "CREATE TABLE IF NOT EXISTS Menu (item_name VARCHAR NOT NULL PRIMARY KEY, item_description TEXT, price FLOAT NOT NULL);"@,
        st.params@.len() == 0,
{
    Statement {
        sql: String::from_str(
            "CREATE TABLE IF NOT EXISTS Menu (item_name VARCHAR NOT NULL PRIMARY KEY, item_description TEXT, price FLOAT NOT NULL);",
        ),
        params: Vec::new(),
    }
}

/// Creates the `Orders` table unless it exists.
pub fn create_orders_table_statement() -> (st: Statement)
    ensures
        st.sql@
            == "CREATE TABLE IF NOT EXISTS Orders (id SERIAL PRIMARY KEY, table_no INT NOT NULL, item_name VARCHAR NOT NULL, quantity OID NOT NULL, preparation_time OID NOT NULL, status VARCHAR NOT NULL);"@,
        st.params@.len() == 0,
{
    Statement {
        sql: String::from_str(
            "CREATE TABLE IF NOT EXISTS Orders (id SERIAL PRIMARY KEY, table_no INT NOT NULL, item_name VARCHAR NOT NULL, quantity OID NOT NULL, preparation_time OID NOT NULL, status VARCHAR NOT NULL);",
        ),
        params: Vec::new(),
    }
}

} // verus!
