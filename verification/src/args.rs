//! The settings the server starts with.

use vstd::prelude::*;

verus! {

/// Server settings: the menu file to load, logging, the listening address
/// and the database to connect to.
#[derive(Clone, Debug)]
pub struct Args {
    pub menu_yaml_file: String,
    pub log_level: String,
    pub enable_dev_log_format: bool,
    pub listen_port: u16,
    pub bind_address: String,
    pub db_host: String,
    pub db_port: String,
    pub db_user: String,
    pub db_password: String,
    pub db_name: String,
}

} // verus!
