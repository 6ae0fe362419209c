//! Decoder for PCI Express Transaction Layer Packets (TLPs).
//!
//! A TLP arrives as a hex-digit string; the pipeline normalizes it into raw
//! bytes, decodes the first header doubleword into its fixed bit fields,
//! classifies the packet from its Format and Type codes, and extracts the
//! category-specific fields that follow the header.


pub mod bits;
pub mod classify;
pub mod codec;
pub mod errors;
pub mod fields;
pub mod header;
pub mod laws;
pub mod packet;
pub mod tool;

pub use classify::{DataPresence, Format, HeaderLengthClass, PacketCategory};
pub use codec::Config;
pub use errors::TlpError;
pub use fields::{
    CategoryFields, CompletionFields, ConfigRequestFields, MessageFields, RequestFields,
};
pub use header::PacketHeader;
pub use packet::RawPacket;
pub use tool::{DecodedTlp, TlpBody, TlpTool};
