//! Protocol numbers used in filters, grouped by layer.
pub mod eth_proto;
pub mod ip_proto;
