//! Live packet capture sessions: frame decoding, capture-run control, the
//! session archive and the textual log format.
pub mod text;
pub mod payload;
pub mod ip_address;
pub mod protocol;
pub mod parsed_packet;
pub mod decoder;
pub mod archive;
pub mod capture;
