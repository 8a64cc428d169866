use vstd::prelude::*;

use super::QuicErrorClass;
use crate::quic::{QuinnConnectionError, QuinnReadError, QuinnReadToEndError, QuinnWriteError};

verus! {

/// `h3::error::ConnectionError`, carried opaquely; every value classifies
/// the same way, so nothing inside it is read.
#[verifier::external_type_specification]
#[verifier::external_body]
pub struct ExH3ConnectionError(h3::error::ConnectionError);

/// `h3::error::StreamError`, carried opaquely; the variants a caller can
/// name all classify the same way, so nothing inside it is read.
#[verifier::external_type_specification]
#[verifier::external_body]
pub struct ExH3StreamError(h3::error::StreamError);

/// Classifies one Quinn connection-level error: every variant proves the
/// physical connection is lost or unusable.
pub fn classify_quinn_connection_error(error: &QuinnConnectionError) -> (r: QuicErrorClass)
    ensures
        r == QuicErrorClass::EntryTerminal,
{
    match error {
        QuinnConnectionError::VersionMismatch
        | QuinnConnectionError::TransportError
        | QuinnConnectionError::ConnectionClosed
        | QuinnConnectionError::ApplicationClosed
        | QuinnConnectionError::Reset
        | QuinnConnectionError::TimedOut
        | QuinnConnectionError::LocallyClosed
        | QuinnConnectionError::CidsExhausted => QuicErrorClass::EntryTerminal,
    }
}

/// Classifies one Quinn stream write error: `Stopped` and `ClosedStream` end
/// only this stream, a lost connection inherits the connection class, and a
/// rejected 0-RTT (unreachable without 0-RTT) is conservatively terminal.
pub fn classify_quinn_write_error(error: &QuinnWriteError) -> (r: QuicErrorClass)
    ensures
        r == (match *error {
            QuinnWriteError::Stopped => QuicErrorClass::StreamLocal,
            QuinnWriteError::ClosedStream => QuicErrorClass::StreamLocal,
            QuinnWriteError::ConnectionLost(_) => QuicErrorClass::EntryTerminal,
            QuinnWriteError::ZeroRttRejected => QuicErrorClass::EntryTerminal,
        }),
{
    match error {
        QuinnWriteError::Stopped | QuinnWriteError::ClosedStream => QuicErrorClass::StreamLocal,
        QuinnWriteError::ConnectionLost(connection) => classify_quinn_connection_error(connection),
        QuinnWriteError::ZeroRttRejected => QuicErrorClass::EntryTerminal,
    }
}

/// Classifies one Quinn stream read error: a reset, a closed stream, and an
/// illegal ordered read are local to one stream; a lost connection inherits
/// the connection class; a rejected 0-RTT is terminal.
pub fn classify_quinn_read_error(error: &QuinnReadError) -> (r: QuicErrorClass)
    ensures
        r == (match *error {
            QuinnReadError::Reset => QuicErrorClass::StreamLocal,
            QuinnReadError::ClosedStream => QuicErrorClass::StreamLocal,
            QuinnReadError::IllegalOrderedRead => QuicErrorClass::StreamLocal,
            QuinnReadError::ConnectionLost(_) => QuicErrorClass::EntryTerminal,
            QuinnReadError::ZeroRttRejected => QuicErrorClass::EntryTerminal,
        }),
{
    match error {
        QuinnReadError::Reset
        | QuinnReadError::ClosedStream
        | QuinnReadError::IllegalOrderedRead => QuicErrorClass::StreamLocal,
        QuinnReadError::ConnectionLost(connection) => classify_quinn_connection_error(connection),
        QuinnReadError::ZeroRttRejected => QuicErrorClass::EntryTerminal,
    }
}

/// Classifies one read-to-FIN error: a read failure by its own class, a
/// message above the bound as stream-local.
pub fn classify_quinn_read_to_end_error(error: &QuinnReadToEndError) -> (r: QuicErrorClass)
    ensures
        r == (match *error {
            QuinnReadToEndError::Read(QuinnReadError::ConnectionLost(_)) => QuicErrorClass::EntryTerminal,
            QuinnReadToEndError::Read(QuinnReadError::ZeroRttRejected) => QuicErrorClass::EntryTerminal,
            _ => QuicErrorClass::StreamLocal,
        }),
{
    match error {
        QuinnReadToEndError::Read(read) => classify_quinn_read_error(read),
        QuinnReadToEndError::TooLong => QuicErrorClass::StreamLocal,
    }
}

/// The `h3` backend connection error vocabulary, by variant.
#[derive(Clone, Copy, Debug, PartialEq, Eq, Structural)]
pub enum H3ConnectionErrorIncoming {
    ApplicationClose,
    Timeout,
    InternalError,
    Undefined,
}

/// The `h3` backend stream error vocabulary, by variant.
#[derive(Clone, Copy, Debug, PartialEq, Eq, Structural)]
pub enum H3StreamErrorIncoming {
    ConnectionErrorIncoming(H3ConnectionErrorIncoming),
    StreamTerminated,
    Unknown,
}

/// Classifies the backend connection error vocabulary: the whole type is
/// connection-level.
pub fn classify_h3_quinn_connection_error(error: &H3ConnectionErrorIncoming) -> (r: QuicErrorClass)
    ensures
        r == QuicErrorClass::EntryTerminal,
{
    match error {
        H3ConnectionErrorIncoming::ApplicationClose
        | H3ConnectionErrorIncoming::Timeout
        | H3ConnectionErrorIncoming::InternalError
        | H3ConnectionErrorIncoming::Undefined => QuicErrorClass::EntryTerminal,
    }
}

/// Classifies the backend stream error vocabulary: a connection error that
/// crossed into a stream inherits the connection class; a terminated stream
/// and the stream-scoped remainder are local.
pub fn classify_h3_quinn_stream_error(error: &H3StreamErrorIncoming) -> (r: QuicErrorClass)
    ensures
        r == (match *error {
            H3StreamErrorIncoming::ConnectionErrorIncoming(_) => QuicErrorClass::EntryTerminal,
            _ => QuicErrorClass::StreamLocal,
        }),
{
    match error {
        H3StreamErrorIncoming::ConnectionErrorIncoming(connection_error) => {
            classify_h3_quinn_connection_error(connection_error)
        },
        H3StreamErrorIncoming::StreamTerminated | H3StreamErrorIncoming::Unknown => {
            QuicErrorClass::StreamLocal
        },
    }
}

/// Classifies an `h3` client connection error (the driver's close outcome):
/// every such error means the H3 connection is closed, so the class is decided
/// by the type alone.
pub fn classify_h3_connection_error(error: &h3::error::ConnectionError) -> (r: QuicErrorClass)
    ensures
        r == QuicErrorClass::EntryTerminal,
{
    QuicErrorClass::EntryTerminal
}

/// Classifies an `h3` request-stream error. The variants a downstream crate
/// can name are stream-scoped; the connection-carrying outcomes cannot be
/// matched by variant and are classified through the explicit observation
/// model (`classify_h3_request_outcome`) instead.
pub fn classify_h3_stream_error(error: &h3::error::StreamError) -> (r: QuicErrorClass)
    ensures
        r == QuicErrorClass::StreamLocal,
{
    QuicErrorClass::StreamLocal
}

/// One row of the connection-level versus stream-level classification table.
/// A row is identified by the exact triple `(vocabulary, error_type, item)`.
#[derive(Clone, Copy, Debug)]
pub struct PinnedErrorClassRow {
    /// The vocabulary this row belongs to.
    pub vocabulary: &'static str,
    /// The error type name.
    pub error_type: &'static str,
    /// The variant or outcome name.
    pub item: &'static str,
    /// Where the row's class is derived from.
    pub citation: &'static str,
    /// The single class this item maps to.
    pub class: QuicErrorClass,
}

/// The authoritative classification table.
pub open spec fn pinned_rows() -> Seq<PinnedErrorClassRow> {
    seq![
        PinnedErrorClassRow {
            vocabulary: "quinn",
            error_type: "quinn::ConnectionError",
            item: "VersionMismatch",
            citation: "quinn-0.11.7/src/lib.rs:62 re-exports quinn-proto-0.11.18/src/connection/mod.rs:3909-3941",
            class: QuicErrorClass::EntryTerminal,
        },
        PinnedErrorClassRow {
            vocabulary: "quinn",
            error_type: "quinn::ConnectionError",
            item: "TransportError",
            citation: "quinn-proto-0.11.18/src/connection/mod.rs:3909-3941",
            class: QuicErrorClass::EntryTerminal,
        },
        PinnedErrorClassRow {
            vocabulary: "quinn",
            error_type: "quinn::ConnectionError",
            item: "ConnectionClosed",
            citation: "quinn-proto-0.11.18/src/connection/mod.rs:3909-3941",
            class: QuicErrorClass::EntryTerminal,
        },
        PinnedErrorClassRow {
            vocabulary: "quinn",
            error_type: "quinn::ConnectionError",
            item: "ApplicationClosed",
            citation: "quinn-proto-0.11.18/src/connection/mod.rs:3909-3941",
            class: QuicErrorClass::EntryTerminal,
        },
        PinnedErrorClassRow {
            vocabulary: "quinn",
            error_type: "quinn::ConnectionError",
            item: "Reset",
            citation: "quinn-proto-0.11.18/src/connection/mod.rs:3909-3941",
            class: QuicErrorClass::EntryTerminal,
        },
        PinnedErrorClassRow {
            vocabulary: "quinn",
            error_type: "quinn::ConnectionError",
            item: "TimedOut",
            citation: "quinn-proto-0.11.18/src/connection/mod.rs:3909-3941",
            class: QuicErrorClass::EntryTerminal,
        },
        PinnedErrorClassRow {
            vocabulary: "quinn",
            error_type: "quinn::ConnectionError",
            item: "LocallyClosed",
            citation: "quinn-proto-0.11.18/src/connection/mod.rs:3909-3941",
            class: QuicErrorClass::EntryTerminal,
        },
        PinnedErrorClassRow {
            vocabulary: "quinn",
            error_type: "quinn::ConnectionError",
            item: "CidsExhausted",
            citation: "quinn-proto-0.11.18/src/connection/mod.rs:3909-3941",
            class: QuicErrorClass::EntryTerminal,
        },
        PinnedErrorClassRow {
            vocabulary: "quinn",
            error_type: "quinn::WriteError",
            item: "Stopped",
            citation: "quinn-0.11.7/src/send_stream.rs:423-440",
            class: QuicErrorClass::StreamLocal,
        },
        PinnedErrorClassRow {
            vocabulary: "quinn",
            error_type: "quinn::WriteError",
            item: "ConnectionLost",
            citation: "quinn-0.11.7/src/send_stream.rs:423-440",
            class: QuicErrorClass::EntryTerminal,
        },
        PinnedErrorClassRow {
            vocabulary: "quinn",
            error_type: "quinn::WriteError",
            item: "ClosedStream",
            citation: "quinn-0.11.7/src/send_stream.rs:423-440",
            class: QuicErrorClass::StreamLocal,
        },
        PinnedErrorClassRow {
            vocabulary: "quinn",
            error_type: "quinn::WriteError",
            item: "ZeroRttRejected",
            citation: "quinn-0.11.7/src/send_stream.rs:423-440",
            class: QuicErrorClass::EntryTerminal,
        },
        PinnedErrorClassRow {
            vocabulary: "quinn",
            error_type: "quinn::ReadError",
            item: "Reset",
            citation: "quinn-0.11.7/src/recv_stream.rs:520-547",
            class: QuicErrorClass::StreamLocal,
        },
        PinnedErrorClassRow {
            vocabulary: "quinn",
            error_type: "quinn::ReadError",
            item: "ConnectionLost",
            citation: "quinn-0.11.7/src/recv_stream.rs:520-547",
            class: QuicErrorClass::EntryTerminal,
        },
        PinnedErrorClassRow {
            vocabulary: "quinn",
            error_type: "quinn::ReadError",
            item: "ClosedStream",
            citation: "quinn-0.11.7/src/recv_stream.rs:520-547",
            class: QuicErrorClass::StreamLocal,
        },
        PinnedErrorClassRow {
            vocabulary: "quinn",
            error_type: "quinn::ReadError",
            item: "IllegalOrderedRead",
            citation: "quinn-0.11.7/src/recv_stream.rs:520-547",
            class: QuicErrorClass::StreamLocal,
        },
        PinnedErrorClassRow {
            vocabulary: "quinn",
            error_type: "quinn::ReadError",
            item: "ZeroRttRejected",
            citation: "quinn-0.11.7/src/recv_stream.rs:520-547",
            class: QuicErrorClass::EntryTerminal,
        },
        PinnedErrorClassRow {
            vocabulary: "quinn",
            error_type: "quinn::ReadToEndError",
            item: "Read(Reset)",
            citation: "quinn-0.11.7/src/recv_stream.rs:467-475; :520-547",
            class: QuicErrorClass::StreamLocal,
        },
        PinnedErrorClassRow {
            vocabulary: "quinn",
            error_type: "quinn::ReadToEndError",
            item: "Read(ConnectionLost)",
            citation: "quinn-0.11.7/src/recv_stream.rs:467-475; :520-547",
            class: QuicErrorClass::EntryTerminal,
        },
        PinnedErrorClassRow {
            vocabulary: "quinn",
            error_type: "quinn::ReadToEndError",
            item: "Read(ClosedStream)",
            citation: "quinn-0.11.7/src/recv_stream.rs:467-475; :520-547",
            class: QuicErrorClass::StreamLocal,
        },
        PinnedErrorClassRow {
            vocabulary: "quinn",
            error_type: "quinn::ReadToEndError",
            item: "Read(IllegalOrderedRead)",
            citation: "quinn-0.11.7/src/recv_stream.rs:467-475; :520-547",
            class: QuicErrorClass::StreamLocal,
        },
        PinnedErrorClassRow {
            vocabulary: "quinn",
            error_type: "quinn::ReadToEndError",
            item: "Read(ZeroRttRejected)",
            citation: "quinn-0.11.7/src/recv_stream.rs:467-475; :520-547",
            class: QuicErrorClass::EntryTerminal,
        },
        PinnedErrorClassRow {
            vocabulary: "quinn",
            error_type: "quinn::ReadToEndError",
            item: "TooLong",
            citation: "quinn-0.11.7/src/recv_stream.rs:467-475",
            class: QuicErrorClass::StreamLocal,
        },
        PinnedErrorClassRow {
            vocabulary: "h3-quinn",
            error_type: "h3::quic::ConnectionErrorIncoming",
            item: "ApplicationClose",
            citation: "h3-0.0.8/src/quic.rs:20-33; h3-quinn-0.0.10/src/lib.rs:109-126",
            class: QuicErrorClass::EntryTerminal,
        },
        PinnedErrorClassRow {
            vocabulary: "h3-quinn",
            error_type: "h3::quic::ConnectionErrorIncoming",
            item: "Timeout",
            citation: "h3-0.0.8/src/quic.rs:20-33; h3-quinn-0.0.10/src/lib.rs:109-126",
            class: QuicErrorClass::EntryTerminal,
        },
        PinnedErrorClassRow {
            vocabulary: "h3-quinn",
            error_type: "h3::quic::ConnectionErrorIncoming",
            item: "InternalError",
            citation: "h3-0.0.8/src/quic.rs:20-33",
            class: QuicErrorClass::EntryTerminal,
        },
        PinnedErrorClassRow {
            vocabulary: "h3-quinn",
            error_type: "h3::quic::ConnectionErrorIncoming",
            item: "Undefined",
            citation: "h3-0.0.8/src/quic.rs:20-33; h3-quinn-0.0.10/src/lib.rs:109-126",
            class: QuicErrorClass::EntryTerminal,
        },
        PinnedErrorClassRow {
            vocabulary: "h3-quinn",
            error_type: "h3::quic::StreamErrorIncoming",
            item: "ConnectionErrorIncoming",
            citation: "h3-0.0.8/src/quic.rs:57-71",
            class: QuicErrorClass::EntryTerminal,
        },
        PinnedErrorClassRow {
            vocabulary: "h3-quinn",
            error_type: "h3::quic::StreamErrorIncoming",
            item: "StreamTerminated",
            citation: "h3-0.0.8/src/quic.rs:57-71",
            class: QuicErrorClass::StreamLocal,
        },
        PinnedErrorClassRow {
            vocabulary: "h3-quinn",
            error_type: "h3::quic::StreamErrorIncoming",
            item: "Unknown",
            citation: "h3-0.0.8/src/quic.rs:57-71; h3-quinn-0.0.10/src/lib.rs:407-435",
            class: QuicErrorClass::StreamLocal,
        },
        PinnedErrorClassRow {
            vocabulary: "h3",
            error_type: "h3::error::ConnectionError",
            item: "any driver poll_close outcome",
            citation: "h3-0.0.8/src/error/error.rs:13-31; h3-0.0.8/src/client/connection.rs:397-400",
            class: QuicErrorClass::EntryTerminal,
        },
        PinnedErrorClassRow {
            vocabulary: "h3",
            error_type: "h3::error::StreamError",
            item: "struct-shaped variants only",
            citation: "h3-0.0.8/src/error/error.rs:79-136",
            class: QuicErrorClass::StreamLocal,
        },
        PinnedErrorClassRow {
            vocabulary: "h3",
            error_type: "h3::error::StreamError",
            item: "ConnectionError(_) or RemoteClosing (discriminator model)",
            citation: "h3-0.0.8/src/error/connection_error_creators.rs:22-27, 110-123, 133-139; h3-0.0.8/src/connection.rs:514, 663-701",
            class: QuicErrorClass::EntryTerminal,
        },
        PinnedErrorClassRow {
            vocabulary: "h3",
            error_type: "h3::error::StreamError",
            item: "Undefined(_) remainder (no connection evidence)",
            citation: "h3-quinn-0.0.10/src/lib.rs:407-435, 486, 505; h3-0.0.8/src/error/connection_error_creators.rs:191-209",
            class: QuicErrorClass::StreamLocal,
        },
        PinnedErrorClassRow {
            vocabulary: "upstream-core",
            error_type: "DoqError",
            item: "TrailingResponse",
            citation: "quic::decode_doq_response: bytes after the first declared frame",
            class: QuicErrorClass::StreamLocal,
        },
        PinnedErrorClassRow {
            vocabulary: "upstream-core",
            error_type: "DoqError",
            item: "MissingResponseFin",
            citation: "quic::classify_doq_read_error: the response stream ended without FIN",
            class: QuicErrorClass::StreamLocal,
        },
        PinnedErrorClassRow {
            vocabulary: "upstream-core",
            error_type: "UpstreamError",
            item: "ResponseMismatch",
            citation: "quic::decode_doq_response: a nonzero peer wire ID",
            class: QuicErrorClass::StreamLocal,
        },
        PinnedErrorClassRow {
            vocabulary: "upstream-core",
            error_type: "DohProtocolError",
            item: "PeerStreamTerminated",
            citation: "DoH response contract: the peer terminated the request stream",
            class: QuicErrorClass::StreamLocal,
        },
        PinnedErrorClassRow {
            vocabulary: "upstream-core",
            error_type: "DohProtocolError",
            item: "ResponseHeadTooLarge",
            citation: "DoH response contract: a response head above the bound",
            class: QuicErrorClass::StreamLocal,
        },
        PinnedErrorClassRow {
            vocabulary: "upstream-core",
            error_type: "DohProtocolError",
            item: "IncompleteBody",
            citation: "DoH response contract: a body that ended early or disagreed with its length",
            class: QuicErrorClass::StreamLocal,
        },
    ]
}

/// Whether a row is the exact triple.
pub open spec fn row_is(row: PinnedErrorClassRow, vocabulary: Seq<char>, error_type: Seq<char>, item: Seq<char>) -> bool {
    row.vocabulary@ == vocabulary && row.error_type@ == error_type && row.item@ == item
}

/// The class of the first row at or after `k` with the exact triple.
pub open spec fn first_class_from(
    rows: Seq<PinnedErrorClassRow>,
    vocabulary: Seq<char>,
    error_type: Seq<char>,
    item: Seq<char>,
    k: int,
) -> Option<QuicErrorClass>
    decreases rows.len() - k,
{
    if k < 0 || k >= rows.len() {
        None
    } else if row_is(rows[k], vocabulary, error_type, item) {
        Some(rows[k].class)
    } else {
        first_class_from(rows, vocabulary, error_type, item, k + 1)
    }
}

/// The classification table, row by row.
pub fn pinned_error_classification_table() -> (r: Vec<PinnedErrorClassRow>)
    ensures
        r@ == pinned_rows(),
{
    let mut rows: Vec<PinnedErrorClassRow> = Vec::new();
    rows.push(
        PinnedErrorClassRow {
            vocabulary: "quinn",
            error_type: "quinn::ConnectionError",
            item: "VersionMismatch",
            citation: "quinn-0.11.7/src/lib.rs:62 re-exports quinn-proto-0.11.18/src/connection/mod.rs:3909-3941",
            class: QuicErrorClass::EntryTerminal,
        },
    );
    rows.push(
        PinnedErrorClassRow {
            vocabulary: "quinn",
            error_type: "quinn::ConnectionError",
            item: "TransportError",
            citation: "quinn-proto-0.11.18/src/connection/mod.rs:3909-3941",
            class: QuicErrorClass::EntryTerminal,
        },
    );
    rows.push(
        PinnedErrorClassRow {
            vocabulary: "quinn",
            error_type: "quinn::ConnectionError",
            item: "ConnectionClosed",
            citation: "quinn-proto-0.11.18/src/connection/mod.rs:3909-3941",
            class: QuicErrorClass::EntryTerminal,
        },
    );
    rows.push(
        PinnedErrorClassRow {
            vocabulary: "quinn",
            error_type: "quinn::ConnectionError",
            item: "ApplicationClosed",
            citation: "quinn-proto-0.11.18/src/connection/mod.rs:3909-3941",
            class: QuicErrorClass::EntryTerminal,
        },
    );
    rows.push(
        PinnedErrorClassRow {
            vocabulary: "quinn",
            error_type: "quinn::ConnectionError",
            item: "Reset",
            citation: "quinn-proto-0.11.18/src/connection/mod.rs:3909-3941",
            class: QuicErrorClass::EntryTerminal,
        },
    );
    rows.push(
        PinnedErrorClassRow {
            vocabulary: "quinn",
            error_type: "quinn::ConnectionError",
            item: "TimedOut",
            citation: "quinn-proto-0.11.18/src/connection/mod.rs:3909-3941",
            class: QuicErrorClass::EntryTerminal,
        },
    );
    rows.push(
        PinnedErrorClassRow {
            vocabulary: "quinn",
            error_type: "quinn::ConnectionError",
            item: "LocallyClosed",
            citation: "quinn-proto-0.11.18/src/connection/mod.rs:3909-3941",
            class: QuicErrorClass::EntryTerminal,
        },
    );
    rows.push(
        PinnedErrorClassRow {
            vocabulary: "quinn",
            error_type: "quinn::ConnectionError",
            item: "CidsExhausted",
            citation: "quinn-proto-0.11.18/src/connection/mod.rs:3909-3941",
            class: QuicErrorClass::EntryTerminal,
        },
    );
    rows.push(
        PinnedErrorClassRow {
            vocabulary: "quinn",
            error_type: "quinn::WriteError",
            item: "Stopped",
            citation: "quinn-0.11.7/src/send_stream.rs:423-440",
            class: QuicErrorClass::StreamLocal,
        },
    );
    rows.push(
        PinnedErrorClassRow {
            vocabulary: "quinn",
            error_type: "quinn::WriteError",
            item: "ConnectionLost",
            citation: "quinn-0.11.7/src/send_stream.rs:423-440",
            class: QuicErrorClass::EntryTerminal,
        },
    );
    rows.push(
        PinnedErrorClassRow {
            vocabulary: "quinn",
            error_type: "quinn::WriteError",
            item: "ClosedStream",
            citation: "quinn-0.11.7/src/send_stream.rs:423-440",
            class: QuicErrorClass::StreamLocal,
        },
    );
    rows.push(
        PinnedErrorClassRow {
            vocabulary: "quinn",
            error_type: "quinn::WriteError",
            item: "ZeroRttRejected",
            citation: "quinn-0.11.7/src/send_stream.rs:423-440",
            class: QuicErrorClass::EntryTerminal,
        },
    );
    rows.push(
        PinnedErrorClassRow {
            vocabulary: "quinn",
            error_type: "quinn::ReadError",
            item: "Reset",
            citation: "quinn-0.11.7/src/recv_stream.rs:520-547",
            class: QuicErrorClass::StreamLocal,
        },
    );
    rows.push(
        PinnedErrorClassRow {
            vocabulary: "quinn",
            error_type: "quinn::ReadError",
            item: "ConnectionLost",
            citation: "quinn-0.11.7/src/recv_stream.rs:520-547",
            class: QuicErrorClass::EntryTerminal,
        },
    );
    rows.push(
        PinnedErrorClassRow {
            vocabulary: "quinn",
            error_type: "quinn::ReadError",
            item: "ClosedStream",
            citation: "quinn-0.11.7/src/recv_stream.rs:520-547",
            class: QuicErrorClass::StreamLocal,
        },
    );
    rows.push(
        PinnedErrorClassRow {
            vocabulary: "quinn",
            error_type: "quinn::ReadError",
            item: "IllegalOrderedRead",
            citation: "quinn-0.11.7/src/recv_stream.rs:520-547",
            class: QuicErrorClass::StreamLocal,
        },
    );
    rows.push(
        PinnedErrorClassRow {
            vocabulary: "quinn",
            error_type: "quinn::ReadError",
            item: "ZeroRttRejected",
            citation: "quinn-0.11.7/src/recv_stream.rs:520-547",
            class: QuicErrorClass::EntryTerminal,
        },
    );
    rows.push(
        PinnedErrorClassRow {
            vocabulary: "quinn",
            error_type: "quinn::ReadToEndError",
            item: "Read(Reset)",
            citation: "quinn-0.11.7/src/recv_stream.rs:467-475; :520-547",
            class: QuicErrorClass::StreamLocal,
        },
    );
    rows.push(
        PinnedErrorClassRow {
            vocabulary: "quinn",
            error_type: "quinn::ReadToEndError",
            item: "Read(ConnectionLost)",
            citation: "quinn-0.11.7/src/recv_stream.rs:467-475; :520-547",
            class: QuicErrorClass::EntryTerminal,
        },
    );
    rows.push(
        PinnedErrorClassRow {
            vocabulary: "quinn",
            error_type: "quinn::ReadToEndError",
            item: "Read(ClosedStream)",
            citation: "quinn-0.11.7/src/recv_stream.rs:467-475; :520-547",
            class: QuicErrorClass::StreamLocal,
        },
    );
    rows.push(
        PinnedErrorClassRow {
            vocabulary: "quinn",
            error_type: "quinn::ReadToEndError",
            item: "Read(IllegalOrderedRead)",
            citation: "quinn-0.11.7/src/recv_stream.rs:467-475; :520-547",
            class: QuicErrorClass::StreamLocal,
        },
    );
    rows.push(
        PinnedErrorClassRow {
            vocabulary: "quinn",
            error_type: "quinn::ReadToEndError",
            item: "Read(ZeroRttRejected)",
            citation: "quinn-0.11.7/src/recv_stream.rs:467-475; :520-547",
            class: QuicErrorClass::EntryTerminal,
        },
    );
    rows.push(
        PinnedErrorClassRow {
            vocabulary: "quinn",
            error_type: "quinn::ReadToEndError",
            item: "TooLong",
            citation: "quinn-0.11.7/src/recv_stream.rs:467-475",
            class: QuicErrorClass::StreamLocal,
        },
    );
    rows.push(
        PinnedErrorClassRow {
            vocabulary: "h3-quinn",
            error_type: "h3::quic::ConnectionErrorIncoming",
            item: "ApplicationClose",
            citation: "h3-0.0.8/src/quic.rs:20-33; h3-quinn-0.0.10/src/lib.rs:109-126",
            class: QuicErrorClass::EntryTerminal,
        },
    );
    rows.push(
        PinnedErrorClassRow {
            vocabulary: "h3-quinn",
            error_type: "h3::quic::ConnectionErrorIncoming",
            item: "Timeout",
            citation: "h3-0.0.8/src/quic.rs:20-33; h3-quinn-0.0.10/src/lib.rs:109-126",
            class: QuicErrorClass::EntryTerminal,
        },
    );
    rows.push(
        PinnedErrorClassRow {
            vocabulary: "h3-quinn",
            error_type: "h3::quic::ConnectionErrorIncoming",
            item: "InternalError",
            citation: "h3-0.0.8/src/quic.rs:20-33",
            class: QuicErrorClass::EntryTerminal,
        },
    );
    rows.push(
        PinnedErrorClassRow {
            vocabulary: "h3-quinn",
            error_type: "h3::quic::ConnectionErrorIncoming",
            item: "Undefined",
            citation: "h3-0.0.8/src/quic.rs:20-33; h3-quinn-0.0.10/src/lib.rs:109-126",
            class: QuicErrorClass::EntryTerminal,
        },
    );
    rows.push(
        PinnedErrorClassRow {
            vocabulary: "h3-quinn",
            error_type: "h3::quic::StreamErrorIncoming",
            item: "ConnectionErrorIncoming",
            citation: "h3-0.0.8/src/quic.rs:57-71",
            class: QuicErrorClass::EntryTerminal,
        },
    );
    rows.push(
        PinnedErrorClassRow {
            vocabulary: "h3-quinn",
            error_type: "h3::quic::StreamErrorIncoming",
            item: "StreamTerminated",
            citation: "h3-0.0.8/src/quic.rs:57-71",
            class: QuicErrorClass::StreamLocal,
        },
    );
    rows.push(
        PinnedErrorClassRow {
            vocabulary: "h3-quinn",
            error_type: "h3::quic::StreamErrorIncoming",
            item: "Unknown",
            citation: "h3-0.0.8/src/quic.rs:57-71; h3-quinn-0.0.10/src/lib.rs:407-435",
            class: QuicErrorClass::StreamLocal,
        },
    );
    rows.push(
        PinnedErrorClassRow {
            vocabulary: "h3",
            error_type: "h3::error::ConnectionError",
            item: "any driver poll_close outcome",
            citation: "h3-0.0.8/src/error/error.rs:13-31; h3-0.0.8/src/client/connection.rs:397-400",
            class: QuicErrorClass::EntryTerminal,
        },
    );
    rows.push(
        PinnedErrorClassRow {
            vocabulary: "h3",
            error_type: "h3::error::StreamError",
            item: "struct-shaped variants only",
            citation: "h3-0.0.8/src/error/error.rs:79-136",
            class: QuicErrorClass::StreamLocal,
        },
    );
    rows.push(
        PinnedErrorClassRow {
            vocabulary: "h3",
            error_type: "h3::error::StreamError",
            item: "ConnectionError(_) or RemoteClosing (discriminator model)",
            citation: "h3-0.0.8/src/error/connection_error_creators.rs:22-27, 110-123, 133-139; h3-0.0.8/src/connection.rs:514, 663-701",
            class: QuicErrorClass::EntryTerminal,
        },
    );
    rows.push(
        PinnedErrorClassRow {
            vocabulary: "h3",
            error_type: "h3::error::StreamError",
            item: "Undefined(_) remainder (no connection evidence)",
            citation: "h3-quinn-0.0.10/src/lib.rs:407-435, 486, 505; h3-0.0.8/src/error/connection_error_creators.rs:191-209",
            class: QuicErrorClass::StreamLocal,
        },
    );
    rows.push(
        PinnedErrorClassRow {
            vocabulary: "upstream-core",
            error_type: "DoqError",
            item: "TrailingResponse",
            citation: "quic::decode_doq_response: bytes after the first declared frame",
            class: QuicErrorClass::StreamLocal,
        },
    );
    rows.push(
        PinnedErrorClassRow {
            vocabulary: "upstream-core",
            error_type: "DoqError",
            item: "MissingResponseFin",
            citation: "quic::classify_doq_read_error: the response stream ended without FIN",
            class: QuicErrorClass::StreamLocal,
        },
    );
    rows.push(
        PinnedErrorClassRow {
            vocabulary: "upstream-core",
            error_type: "UpstreamError",
            item: "ResponseMismatch",
            citation: "quic::decode_doq_response: a nonzero peer wire ID",
            class: QuicErrorClass::StreamLocal,
        },
    );
    rows.push(
        PinnedErrorClassRow {
            vocabulary: "upstream-core",
            error_type: "DohProtocolError",
            item: "PeerStreamTerminated",
            citation: "DoH response contract: the peer terminated the request stream",
            class: QuicErrorClass::StreamLocal,
        },
    );
    rows.push(
        PinnedErrorClassRow {
            vocabulary: "upstream-core",
            error_type: "DohProtocolError",
            item: "ResponseHeadTooLarge",
            citation: "DoH response contract: a response head above the bound",
            class: QuicErrorClass::StreamLocal,
        },
    );
    rows.push(
        PinnedErrorClassRow {
            vocabulary: "upstream-core",
            error_type: "DohProtocolError",
            item: "IncompleteBody",
            citation: "DoH response contract: a body that ended early or disagreed with its length",
            class: QuicErrorClass::StreamLocal,
        },
    );
    rows
}

fn str_eq(a: &str, b: &str) -> (r: bool)
    ensures
        r == (a@ == b@),
{
    a.to_owned() == b.to_owned()
}

/// Looks up one row by the exact triple; there is no item-only lookup, because
/// item names repeat across error types with different classes.
pub fn pinned_error_class(vocabulary: &str, error_type: &str, item: &str) -> (r: Option<QuicErrorClass>)
    ensures
        r == first_class_from(pinned_rows(), vocabulary@, error_type@, item@, 0),
{
    let rows = pinned_error_classification_table();
    let mut k: usize = 0;
    while k < rows.len()
        invariant
            k <= rows@.len(),
            rows@ == pinned_rows(),
            first_class_from(rows@, vocabulary@, error_type@, item@, 0) == first_class_from(
                rows@,
                vocabulary@,
                error_type@,
                item@,
                k as int,
            ),
        decreases rows@.len() - k,
    {
        let row = rows[k];
        if str_eq(row.vocabulary, vocabulary) && str_eq(row.error_type, error_type) && str_eq(
            row.item,
            item,
        ) {
            return Some(row.class);
        }
        k = k + 1;
    }
    None
}

} // verus!
