//! The controls, and the parts of a control that have operations of their own.

pub mod base_native_control;
pub mod header;
pub mod header_items;
pub mod iterators;
pub mod list_view_column;
pub mod tree_view_item;

pub use base_native_control::BaseNativeControl;
pub use base_native_control::CreateWindow;
pub use header::Header;
pub use header::HeaderOpts;
pub use header_items::HeaderItems;
pub use iterators::TreeViewChildItemIter;
pub use iterators::TreeViewItemIter;
pub use list_view_column::ListViewColumn;
pub use tree_view_item::TreeViewItem;
