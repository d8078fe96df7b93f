//! The daemon's data as the dashboard holds it, and the rules that read it.

pub mod chain;
pub mod connection;
pub mod endpoint;
pub mod log;
pub mod name_map;
pub mod proxy;

pub use connection::{Connection, ConnectionItem, Metadata};
pub use endpoint::{mode_of_reply, ModeError};
pub use log::LogItem;
pub use name_map::NameMap;
pub use proxy::{
    HistoryItem, Provider, ProviderItem, ProviderProxy, Proxy, ProxyData, ProxyError, ProxyItem,
};
