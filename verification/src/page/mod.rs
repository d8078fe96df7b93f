//! Pages of the dashboard and the widgets they own.

pub mod connection_page;
pub mod delta_engine;
pub mod group_item_page;
pub mod group_page;
pub mod log_page;
pub mod stream_worker;
pub mod widget;

pub use connection_page::ConnectionPage;
pub use group_item_page::GroupItemPage;
pub use group_page::GroupPage;
pub use log_page::LogPage;
pub use stream_worker::{StreamWorker, WorkerAction, WorkerEvent, WorkerState, WsMsg};
