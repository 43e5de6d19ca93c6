use vstd::prelude::*;
use crate::text::{decode_text, text_of};

verus! {

/// The size of the buffer that each poll of the socket reads into.
pub const RECEIVE_BUFFER_SIZE: usize = 512;

/// How one non-blocking read from the socket ended.
#[derive(Debug, Clone, Copy, PartialEq, Eq)]
pub enum SocketRead {
    /// This many bytes were read into the receive buffer.
    Bytes(usize),
    /// No data is available yet.
    WouldBlock,
    /// Any other I/O error.
    Failed,
}

/// What the poller shows after one read from the socket.
///
/// Received bytes that are not valid UTF-8 (a remote that sends binary data,
/// or a multi-byte character split across two reads) are reported with their
/// count, and the loop goes on.
#[derive(Debug, PartialEq, Eq)]
pub enum PollReport {
    /// Nothing to show.
    Quiet,
    /// Show "Received `count` bytes: `text`".
    Received { count: usize, text: String },
    /// Show that `count` bytes arrived that are not valid UTF-8.
    Undecodable { count: usize },
    /// Report the read error; the loop goes on.
    ReadError,
}

/// What a poll report is in the model.
pub enum PollReportView {
    Quiet,
    Received { count: nat, text: Seq<char> },
    Undecodable { count: nat },
    ReadError,
}

impl View for PollReport {
    type V = PollReportView;

    open spec fn view(&self) -> PollReportView {
        match self {
            PollReport::Quiet => PollReportView::Quiet,
            PollReport::Received { count, text } => PollReportView::Received {
                count: *count as nat,
                text: text@,
            },
            PollReport::Undecodable { count } => PollReportView::Undecodable {
                count: *count as nat,
            },
            PollReport::ReadError => PollReportView::ReadError,
        }
    }
}

/// The report on `read` into `buf`: only the bytes that were read are
/// looked at, and "no data yet" is no error.
pub open spec fn poll_report_of(read: SocketRead, buf: Seq<u8>) -> PollReportView {
    match read {
        SocketRead::WouldBlock => PollReportView::Quiet,
        SocketRead::Failed => PollReportView::ReadError,
        SocketRead::Bytes(n) => match text_of(buf.subrange(0, n as int)) {
            Some(t) => PollReportView::Received { count: n as nat, text: t },
            None => PollReportView::Undecodable { count: n as nat },
        },
    }
}

/// Decides what to show for one read from the socket.
pub fn poll_report(read: SocketRead, buf: &[u8]) -> (r: PollReport)
    requires
        read matches SocketRead::Bytes(n) ==> n <= buf@.len(),
    ensures
        r@ == poll_report_of(read, buf@),
{
    match read {
        SocketRead::WouldBlock => PollReport::Quiet,
        SocketRead::Failed => PollReport::ReadError,
        SocketRead::Bytes(n) => match decode_text(&buf[0..n]) {
            Some(text) => PollReport::Received { count: n, text },
            None => PollReport::Undecodable { count: n },
        },
    }
}

} // verus!
