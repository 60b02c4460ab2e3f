//! What a read from a local IPC stream means for the connection.
//!
//! The caller performs the read (or the named-pipe peek) and hands over
//! what it returned; these functions decide whether data arrived, nothing
//! is there yet, the peer went away, or the error is a real one.
use vstd::prelude::*;

verus! {

/// State of a local stream after a non-blocking read.
#[derive(Debug, Clone, Copy, PartialEq, Eq, Structural)]
pub enum LocalStreamRead {
    Closed,
    Data,
    Pending,
}

/// The kinds of read error the decisions tell apart.
#[derive(Debug, Clone, Copy, PartialEq, Eq, Structural)]
pub enum ReadErrorKind {
    WouldBlock,
    Interrupted,
    /// The peer closed the connection (broken pipe, reset, and the like).
    ConnectionClosed,
    Other,
}

/// What a read returned: a byte count, or an error of some kind.
#[derive(Debug, Clone, Copy, PartialEq, Eq, Structural)]
pub enum ReadOutcome {
    Read(usize),
    Failed(ReadErrorKind),
}

/// A socket read: no bytes means the peer closed, bytes mean data, a read
/// that would block means nothing yet; other errors are passed on (`None`).
pub open spec fn socket_read_spec(r: ReadOutcome) -> Option<LocalStreamRead> {
    match r {
        ReadOutcome::Read(0) => Some(LocalStreamRead::Closed),
        ReadOutcome::Read(_) => Some(LocalStreamRead::Data),
        ReadOutcome::Failed(ReadErrorKind::WouldBlock) => Some(LocalStreamRead::Pending),
        ReadOutcome::Failed(_) => None,
    }
}

pub fn socket_read_state(r: ReadOutcome) -> (s: Option<LocalStreamRead>)
    ensures
        s == socket_read_spec(r),
{
    match r {
        ReadOutcome::Read(0) => Some(LocalStreamRead::Closed),
        ReadOutcome::Read(_) => Some(LocalStreamRead::Data),
        ReadOutcome::Failed(ReadErrorKind::WouldBlock) => Some(LocalStreamRead::Pending),
        ReadOutcome::Failed(_) => None,
    }
}

/// A one-byte probe of a socket: any completed read or a closed peer
/// means the stream is done with (`Some(true)`), a read that would block
/// or was interrupted means it is alive (`Some(false)`); other errors are
/// passed on (`None`).
pub open spec fn socket_probe_spec(r: ReadOutcome) -> Option<bool> {
    match r {
        ReadOutcome::Read(_) => Some(true),
        ReadOutcome::Failed(ReadErrorKind::WouldBlock) => Some(false),
        ReadOutcome::Failed(ReadErrorKind::Interrupted) => Some(false),
        ReadOutcome::Failed(ReadErrorKind::ConnectionClosed) => Some(true),
        ReadOutcome::Failed(ReadErrorKind::Other) => None,
    }
}

pub fn socket_probe_closed(r: ReadOutcome) -> (s: Option<bool>)
    ensures
        s == socket_probe_spec(r),
{
    match r {
        ReadOutcome::Read(_) => Some(true),
        ReadOutcome::Failed(ReadErrorKind::WouldBlock) => Some(false),
        ReadOutcome::Failed(ReadErrorKind::Interrupted) => Some(false),
        ReadOutcome::Failed(ReadErrorKind::ConnectionClosed) => Some(true),
        ReadOutcome::Failed(ReadErrorKind::Other) => None,
    }
}

/// Windows error codes that mean a named pipe is gone: invalid handle,
/// broken pipe, pipe being closed, no process on the other end.
pub open spec fn named_pipe_closed_spec(code: Option<i32>) -> bool {
    match code {
        Some(c) => c == 6 || c == 109 || c == 232 || c == 233,
        None => false,
    }
}

pub fn named_pipe_closed_error(code: Option<i32>) -> (r: bool)
    ensures
        r == named_pipe_closed_spec(code),
{
    match code {
        Some(c) => c == 6 || c == 109 || c == 232 || c == 233,
        None => false,
    }
}

/// What peeking a named pipe returned.
#[derive(Debug, Clone, Copy, PartialEq, Eq, Structural)]
pub enum PeekOutcome {
    /// The peek succeeded with this many bytes waiting.
    Available(u32),
    /// The peek failed: whether the error means a closed connection, and
    /// the operating system's error code.
    Failed { connection_closed: bool, code: Option<i32> },
}

/// Bytes waiting in a named pipe: `Some(n)` when the peek succeeded,
/// `Some(None)` when the pipe is closed, `None` when the error is passed on.
pub open spec fn pipe_available_spec(p: PeekOutcome) -> Option<Option<u32>> {
    match p {
        PeekOutcome::Available(n) => Some(Some(n)),
        PeekOutcome::Failed { connection_closed, code } => if connection_closed
            || named_pipe_closed_spec(code) {
            Some(None)
        } else {
            None
        },
    }
}

pub fn named_pipe_available(p: PeekOutcome) -> (r: Option<Option<u32>>)
    ensures
        r == pipe_available_spec(p),
{
    match p {
        PeekOutcome::Available(n) => Some(Some(n)),
        PeekOutcome::Failed { connection_closed, code } => if connection_closed
            || named_pipe_closed_error(code) {
            Some(None)
        } else {
            None
        },
    }
}

/// A named-pipe poll: a closed pipe is closed, an empty one pending; when
/// bytes wait, the read decides (a closed connection counts as closed).
/// `read` is what the read returned, when one was made.
pub open spec fn pipe_poll_spec(available: Option<u32>, read: ReadOutcome) -> Option<LocalStreamRead> {
    match available {
        None => Some(LocalStreamRead::Closed),
        Some(0) => Some(LocalStreamRead::Pending),
        Some(_) => match read {
            ReadOutcome::Read(0) => Some(LocalStreamRead::Closed),
            ReadOutcome::Read(_) => Some(LocalStreamRead::Data),
            ReadOutcome::Failed(ReadErrorKind::ConnectionClosed) => Some(LocalStreamRead::Closed),
            ReadOutcome::Failed(_) => None,
        },
    }
}

/// Whether a named-pipe poll needs a read: only when bytes are waiting.
pub fn pipe_poll_needs_read(available: Option<u32>) -> (r: bool)
    ensures
        r == (available matches Some(n) && n > 0),
{
    match available {
        Some(n) => n > 0,
        None => false,
    }
}

pub fn pipe_poll_state(available: Option<u32>, read: ReadOutcome) -> (s: Option<LocalStreamRead>)
    ensures
        s == pipe_poll_spec(available, read),
{
    match available {
        None => Some(LocalStreamRead::Closed),
        Some(0) => Some(LocalStreamRead::Pending),
        Some(_) => match read {
            ReadOutcome::Read(0) => Some(LocalStreamRead::Closed),
            ReadOutcome::Read(_) => Some(LocalStreamRead::Data),
            ReadOutcome::Failed(ReadErrorKind::ConnectionClosed) => Some(LocalStreamRead::Closed),
            ReadOutcome::Failed(_) => None,
        },
    }
}

/// A named pipe is closed exactly when peeking finds it gone.
pub fn pipe_probe_closed(available: Option<u32>) -> (r: bool)
    ensures
        r == (available is None),
{
    available.is_none()
}

} // verus!
