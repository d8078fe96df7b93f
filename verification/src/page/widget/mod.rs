//! Display widgets: raw rows or lines, a cursor, and a projection that is
//! ready to draw.

pub mod filter_widget;
pub mod log_widget;
pub mod table_widget;

pub use filter_widget::{FilterInnerWidget, FilterWidget};
pub use log_widget::LogWidget;
pub use table_widget::TableWidget;
