//! Decoder for one network control protocol: ICMPv6 messages carried as the
//! next-header payload of an IPv6 datagram. A raw byte buffer is validated,
//! the fixed header fields are extracted, and the message-type code selects
//! which variant-specific suffix is read. Every decode path is verified
//! against a mathematical model of the wire format.

pub mod addr;
pub mod errors;
pub mod hex_text;
pub mod icmpv6;
