//! One snapshot of the daemon's open connections.

use vstd::prelude::*;

verus! {

#[derive(Debug, Clone, PartialEq, Eq)]
pub struct Metadata {
    pub host: String,
    pub sniff_host: String,
    pub destination_ip: String,
    pub destination_port: String,
    pub source_ip: String,
    pub source_port: String,
    pub inbound_name: String,
    pub network: String,
}

#[derive(Debug, Clone, PartialEq, Eq)]
pub struct ConnectionItem {
    pub id: String,
    pub chains: Vec<String>,
    pub metadata: Metadata,
    pub rule: String,
    pub rule_payload: String,
    pub start: String,
    pub download: u64,
    pub upload: u64,
}

#[derive(Debug, Clone, PartialEq, Eq)]
pub struct Connection {
    pub connections: Vec<ConnectionItem>,
    pub download_total: u64,
    pub upload_total: u64,
}

} // verus!
