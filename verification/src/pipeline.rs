//! The decisions of one connection's pipeline, and of the listener.
//!
//! A connection is served by three stages that run side by side: the read
//! stage takes frames off the transport and queues the requests, the
//! dispatch stage answers the queued requests and queues the responses,
//! the write stage puts the queued responses on the transport. The stages
//! and the two bounded queues between them belong to the program that
//! owns the sockets. What each stage does next, given what just happened
//! to it, is decided here.

use vstd::prelude::*;
use vstd::string::StringExecFns;

verus! {

/// The length of each of the two queues of a connection. A stage that
/// finds its queue full waits, which holds back the stage before it and,
/// in the end, the client.
pub const REQ_QUEUE_LEN: usize = 10;

/// One message of the transport, as far as the pipeline looks at it. The
/// payload of a frame that is not text is never inspected.
#[derive(Debug, PartialEq, Eq)]
pub enum Frame {
    Text(String),
    Binary,
    Ping,
    Pong,
    Close,
    Raw,
}

/// What the transport gave the read stage.
#[derive(Debug, PartialEq, Eq)]
pub enum Received {
    Frame(Frame),
    /// Reading failed.
    Failed,
    /// The stream is at its end.
    Closed,
}

/// What the read stage does with what it received.
#[derive(Debug, PartialEq, Eq)]
pub enum ReadStep {
    /// Queue this request for the dispatch stage.
    Forward(String),
    /// Take the next frame.
    Skip,
    /// End the stage.
    Stop,
}

/// What the dispatch stage does with what it took off the request queue.
#[derive(Debug, PartialEq, Eq)]
pub enum DispatchStep {
    /// Route this payload and queue its response for the write stage.
    Route(String),
    /// End the stage.
    Stop,
}

/// What the write stage does with what it took off the response queue.
#[derive(Debug, PartialEq, Eq)]
pub enum WriteStep {
    /// Put this frame on the transport.
    Send(Frame),
    /// End the stage.
    Stop,
}

/// The three stages of a connection.
#[derive(Debug, Clone, Copy, PartialEq, Eq, Structural)]
pub enum Stage {
    Read,
    Dispatch,
    Write,
}

/// A connection: running with all three stages alive, or closed because
/// of the stage that ended first.
#[derive(Debug, Clone, Copy, PartialEq, Eq, Structural)]
pub enum Connection {
    Running,
    Closed(Stage),
}

/// What one round of accepting came to.
#[derive(Debug, PartialEq, Eq)]
pub enum Accepted {
    /// A client is connected and its handshake is done.
    Client,
    /// The peer's address could not be had; the text says why.
    NoPeerAddr(String),
    /// The handshake failed; the text says why.
    NoHandshake(String),
    /// The listener itself failed to accept.
    ListenerFailed,
}

/// What the listener does next.
#[derive(Debug, PartialEq, Eq)]
pub enum ListenerStep {
    /// Serve the client on a pipeline of its own, and go on accepting.
    Serve,
    /// Report this and go on accepting: the failure is the one
    /// connection's.
    Report(String),
    /// Stop accepting.
    Stop,
}

/// The step of the read stage: a text frame is forwarded, any other
/// frame is passed over, a failed read or the end of the stream ends the
/// stage.
pub open spec fn read_step(received: Received) -> ReadStep {
    match received {
        Received::Frame(Frame::Text(text)) => ReadStep::Forward(text),
        Received::Frame(_) => ReadStep::Skip,
        Received::Failed => ReadStep::Stop,
        Received::Closed => ReadStep::Stop,
    }
}

/// Decides what the read stage does with what the transport gave it.
pub fn on_received(received: Received) -> (r: ReadStep)
    ensures
        r == read_step(received),
{
    match received {
        Received::Frame(frame) => match frame {
            Frame::Text(text) => ReadStep::Forward(text),
            _ => ReadStep::Skip,
        },
        Received::Failed => ReadStep::Stop,
        Received::Closed => ReadStep::Stop,
    }
}

/// Decides what the dispatch stage does with what came off the request
/// queue: `None` says that the queue is closed, the read stage being
/// gone.
pub fn on_request(queued: Option<String>) -> (r: DispatchStep)
    ensures
        r == match queued {
            Some(text) => DispatchStep::Route(text),
            None => DispatchStep::Stop,
        },
{
    match queued {
        Some(text) => DispatchStep::Route(text),
        None => DispatchStep::Stop,
    }
}

/// Decides what the write stage does with what came off the response
/// queue: a response goes out as a text frame, `None` says that the queue
/// is closed.
pub fn on_response(queued: Option<String>) -> (r: WriteStep)
    ensures
        r == match queued {
            Some(text) => WriteStep::Send(Frame::Text(text)),
            None => WriteStep::Stop,
        },
{
    match queued {
        Some(text) => WriteStep::Send(Frame::Text(text)),
        None => WriteStep::Stop,
    }
}

impl Connection {
    /// A connection whose stages have all been started.
    pub fn open() -> (r: Connection)
        ensures
            r == Connection::Running,
    {
        Connection::Running
    }

    /// The connection after `stage` has ended. The first stage to end
    /// closes the connection and is kept as the cause; one that ends
    /// later changes nothing.
    pub open spec fn after(self, stage: Stage) -> Connection {
        match self {
            Connection::Running => Connection::Closed(stage),
            Connection::Closed(cause) => Connection::Closed(cause),
        }
    }

    /// Records that `stage` has ended.
    pub fn stage_ended(self, stage: Stage) -> (r: Connection)
        ensures
            r == self.after(stage),
    {
        match self {
            Connection::Running => Connection::Closed(stage),
            Connection::Closed(cause) => Connection::Closed(cause),
        }
    }

    /// Whether the stages may take another step: only while the
    /// connection is running. In a closed connection every stage that is
    /// still alive is to be dropped, with its queues.
    pub fn is_running(&self) -> (r: bool)
        ensures
            r == (*self == Connection::Running),
    {
        match self {
            Connection::Running => true,
            Connection::Closed(_) => false,
        }
    }

    /// The stage whose end closed the connection.
    pub fn cause(&self) -> (r: Option<Stage>)
        ensures
            r == match *self {
                Connection::Running => None::<Stage>,
                Connection::Closed(stage) => Some(stage),
            },
    {
        match self {
            Connection::Running => None,
            Connection::Closed(stage) => Some(*stage),
        }
    }
}

/// The connection after the stages in `ended` have ended, in that order.
pub open spec fn after_all(start: Connection, ended: Seq<Stage>) -> Connection
    decreases ended.len(),
{
    if ended.len() == 0 {
        start
    } else {
        after_all(start, ended.drop_last()).after(ended.last())
    }
}

/// As soon as one stage has ended the connection is closed, and it stays
/// closed for the same cause whatever ends after it: no stage of that
/// connection may take another step.
pub proof fn law_first_exit_closes(first: Stage, later: Seq<Stage>)
    ensures
        after_all(Connection::Running.after(first), later) == Connection::Closed(first),
    decreases later.len(),
{
    if later.len() > 0 {
        law_first_exit_closes(first, later.drop_last());
    }
}

/// The report of a connection that could not be set up.
pub open spec fn report_text(accepted: Accepted) -> Option<Seq<char>> {
    match accepted {
        Accepted::NoPeerAddr(info) => Some("get client peer_addr error, with info: "@ + info@),
        Accepted::NoHandshake(info) => Some("ws_stream accept error, with info: "@ + info@),
        _ => None,
    }
}

/// Decides what the listener does with what accepting came to: a client
/// is served, a connection that could not be set up is reported and
/// affects nobody else, a failure of the listener itself ends the loop.
pub fn on_accepted(accepted: Accepted) -> (r: ListenerStep)
    ensures
        match accepted {
            Accepted::Client => r == ListenerStep::Serve,
            Accepted::ListenerFailed => r == ListenerStep::Stop,
            _ => r matches ListenerStep::Report(text) && Some(text@) == report_text(accepted),
        },
{
    match accepted {
        Accepted::Client => ListenerStep::Serve,
        Accepted::NoPeerAddr(info) => ListenerStep::Report(
            String::from_str("get client peer_addr error, with info: ").concat(info.as_str()),
        ),
        Accepted::NoHandshake(info) => ListenerStep::Report(
            String::from_str("ws_stream accept error, with info: ").concat(info.as_str()),
        ),
        Accepted::ListenerFailed => ListenerStep::Stop,
    }
}

} // verus!
