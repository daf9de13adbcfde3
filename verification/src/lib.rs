//! Raw IPv4 datagram crafting: byte-exact encoding of UDP- and TCP-framed
//! packets with a correct Internet header checksum, plus the result mapping
//! used by the raw-socket transmission path.

pub mod checksum;
pub mod packet;
pub mod socket;
