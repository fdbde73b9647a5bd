//! A verified core for a DICOM store-and-forward pair: the catalogs of SOP
//! classes and transfer syntaxes, the Upper Layer PDU codec, association
//! negotiation, message fragmentation and reassembly, the C-STORE command
//! codec, and the session bookkeeping that ties them together.
//!
//! All I/O (sockets, files, clocks) lives outside this crate; the functions
//! here compute over plain values and carry contracts for what they compute.
//! The load-bearing guarantees: decoding inverts encoding for every
//! well-formed PDU (`pdu::lemma_pdu_round_trip`), reassembly inverts
//! fragmentation for every payload limit (`transport::lemma_fragment_assemble`),
//! negotiation answers every proposed context and accepts only offered
//! transfer syntaxes (`negotiation::lemma_negotiation_pairing`), a C-STORE
//! response echoes the stored instance (`cstore::lemma_response_echoes_instance`),
//! and session statistics account for every file
//! (`types::lemma_stats_accounting`).

pub mod byteorder;
pub mod uid;
pub mod pdu;
pub mod transport;
pub mod error;
pub mod negotiation;
pub mod cstore;
pub mod sop_classes;
pub mod transfer_syntaxes;
pub mod types;
pub mod session;
pub mod client;
pub mod receiver;
