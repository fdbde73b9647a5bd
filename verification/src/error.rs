//! The error taxonomy of the protocol stack: every failure mode is an
//! explicit variant, and none is swallowed silently at any layer.

use vstd::prelude::*;

use crate::pdu::DecodeError;

verus! {

/// Why an association, a message exchange, or a store failed.
#[derive(Clone, Copy, Debug, PartialEq, Eq, Structural)]
pub enum DicomError {
    /// A short read or a bad PDU header.
    Framing,
    /// A PDU type byte the codec does not know.
    UnknownPduType,
    /// A structurally broken payload.
    Malformed,
    /// The peer answered A-ASSOCIATE-RJ.
    Rejected { result: u8, source: u8, reason: u8 },
    /// The peer sent A-ABORT.
    Aborted { source: u8, reason: u8 },
    /// The peer broke the protocol: a data PDV before any command PDV, an
    /// unknown context id, or a reply that does not answer the request.
    ProtocolViolation,
    /// Negotiation ended with no accepted presentation context.
    NoAcceptedContext,
    /// No accepted context matches the file's SOP class.
    NoContextForSopClass,
    /// The peer answered a C-STORE with a non-success status.
    StoreFailed { status: u16 },
    /// A network operation ran out of time.
    Timeout,
    /// A network operation failed.
    Io,
    /// A DICOM file could not be read.
    DicomRead,
}

impl DicomError {
    /// The error a failed PDU decode maps to.
    pub fn from_decode(e: DecodeError) -> (r: DicomError)
        ensures
            e == DecodeError::Framing ==> r == DicomError::Framing,
            e == DecodeError::UnknownPduType ==> r == DicomError::UnknownPduType,
            e == DecodeError::Malformed ==> r == DicomError::Malformed,
    {
        match e {
            DecodeError::Framing => DicomError::Framing,
            DecodeError::UnknownPduType => DicomError::UnknownPduType,
            DecodeError::Malformed => DicomError::Malformed,
        }
    }

    /// A short description, for logs and summaries.
    pub fn describe(&self) -> &'static str {
        match self {
            DicomError::Framing => "short read or bad PDU header",
            DicomError::UnknownPduType => "unknown PDU type",
            DicomError::Malformed => "malformed PDU payload",
            DicomError::Rejected { .. } => "association rejected",
            DicomError::Aborted { .. } => "association aborted",
            DicomError::ProtocolViolation => "protocol violation",
            DicomError::NoAcceptedContext => "no accepted presentation context",
            DicomError::NoContextForSopClass => "no accepted context for SOP class",
            DicomError::StoreFailed { .. } => "store rejected by peer",
            DicomError::Timeout => "network timeout",
            DicomError::Io => "network error",
            DicomError::DicomRead => "unreadable DICOM file",
        }
    }

    /// Whether this error ends the association: remaining files on it are
    /// failed and the worker must open a new one. Anything else is recorded
    /// against the one file and the association proceeds.
    pub fn terminates_association(&self) -> (r: bool)
        ensures
            r == (self is Io || self is Timeout || self is Aborted || self is ProtocolViolation
                || self is Rejected || self is NoAcceptedContext),
    {
        match self {
            DicomError::Io => true,
            DicomError::Timeout => true,
            DicomError::Aborted { .. } => true,
            DicomError::ProtocolViolation => true,
            DicomError::Rejected { .. } => true,
            DicomError::NoAcceptedContext => true,
            DicomError::Framing => false,
            DicomError::UnknownPduType => false,
            DicomError::Malformed => false,
            DicomError::NoContextForSopClass => false,
            DicomError::StoreFailed { .. } => false,
            DicomError::DicomRead => false,
        }
    }
}

} // verus!
