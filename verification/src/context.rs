//! What the server knows of one client connection.
use vstd::prelude::*;
use std::sync::Arc;
use std::sync::atomic::AtomicBool;

verus! {

/// State of one client connection: who is authenticated on it.
#[derive(Debug)]
pub struct ConnectionContext {
    pub id: Option<i32>,
    pub conn_id: u64,
    pub ip: String,
    pub user_id: Option<i32>,
    pub is_admin: bool,
    pub is_closing: Arc<AtomicBool>,
}

impl ConnectionContext {
    /// A fresh, unauthenticated connection.
    pub fn new(ip: String, conn_id: u64) -> (r: Self)
        ensures
            r.id is None,
            r.conn_id == conn_id,
            r.ip@ == ip@,
            r.user_id is None,
            !r.is_admin,
    {
        ConnectionContext {
            id: None,
            conn_id,
            ip,
            user_id: None,
            is_admin: false,
            is_closing: Arc::new(AtomicBool::new(false)),
        }
    }
}

} // verus!
