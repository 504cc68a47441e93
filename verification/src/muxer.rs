//! The decisions of a stream muxer: what a poll for an inbound substream yields, whether a
//! substream may be opened, read, written or closed, and which substreams are released.
//!
//! One muxer stands for one established connection. The connection's driver and its
//! streams are polled by the one who owns the connection, one at a time; the muxer is told
//! what each poll gave and says what follows. A failure of the connection is remembered:
//! every later operation on the muxer is answered with a failure, the one that the driver
//! reports at that time or else the one remembered.

use vstd::prelude::*;
use crate::transport::ConnectionError;

verus! {

/// What polling the connection's driver gave.
#[derive(Clone, Copy, Debug, PartialEq, Eq, Structural)]
pub enum DriverPoll {
    /// The driver has more to do later.
    Pending,
    /// The driver is done: the connection is closed and drained.
    Finished,
    /// The connection failed.
    Failed(ConnectionError),
}

/// What polling the connection for inbound streams gave. `S` names a stream.
#[derive(Clone, Copy, Debug, PartialEq, Eq, Structural)]
pub enum StreamsPoll<S> {
    /// No stream yet.
    Pending,
    /// The peer opened a stream.
    Opened(S),
    /// The connection failed.
    Failed(ConnectionError),
    /// No more streams will come.
    Closed,
}

/// What a poll of the muxer yields.
#[derive(Clone, Copy, Debug, PartialEq, Eq, Structural)]
pub enum Poll<T> {
    /// Nothing yet.
    Pending,
    /// An outcome.
    Ready(T),
}

/// Why an operation on a substream is refused.
#[derive(Clone, Copy, Debug, PartialEq, Eq, Structural)]
pub enum SubstreamError {
    /// The substream was shut down for writing before.
    WrittenAfterClose,
    /// The substream was released before.
    Released,
}

/// The state of a muxer: the failure of its connection, once there is one.
#[derive(Clone, Copy, Debug, PartialEq, Eq, Structural)]
pub struct SyncQuicMuxer {
    /// The failure that ended the connection.
    pub failure: Option<ConnectionError>,
}

/// The state of one substream. `id` names the stream until the substream is released.
#[derive(Clone, Copy, Debug, PartialEq, Eq, Structural)]
pub struct QuicStream {
    /// The stream, until it is released.
    pub id: Option<u64>,
    /// Whether the substream was shut down for writing.
    pub shutdown: bool,
}

/// What a poll of the driver means for the connection: the failure that it ends with, if
/// it ends. A driver that is done has closed the connection on this side.
pub open spec fn driver_failure(driver: DriverPoll) -> Option<ConnectionError> {
    match driver {
        DriverPoll::Pending => None,
        DriverPoll::Finished => Some(ConnectionError::LocallyClosed),
        DriverPoll::Failed(e) => Some(e),
    }
}

/// What a poll for inbound streams yields on a connection that has not failed.
pub open spec fn inbound_outcome<S>(streams: StreamsPoll<S>) -> Poll<Result<S, ConnectionError>> {
    match streams {
        StreamsPoll::Pending => Poll::Pending,
        StreamsPoll::Opened(stream) => Poll::Ready(Ok(stream)),
        StreamsPoll::Failed(e) => Poll::Ready(Err(e)),
        StreamsPoll::Closed => Poll::Ready(Err(ConnectionError::LocallyClosed)),
    }
}

/// The failure that a poll for inbound streams ends the connection with, if it does.
pub open spec fn streams_failure<S>(streams: StreamsPoll<S>) -> Option<ConnectionError> {
    match streams {
        StreamsPoll::Failed(e) => Some(e),
        StreamsPoll::Closed => Some(ConnectionError::LocallyClosed),
        _ => None,
    }
}

impl SyncQuicMuxer {
    /// The muxer after it was told what polling the driver gave: a failure that the driver
    /// reports is remembered, and a driver with more to do leaves the muxer as it was.
    pub open spec fn driven(self, driver: DriverPoll) -> SyncQuicMuxer {
        match driver_failure(driver) {
            Some(e) => SyncQuicMuxer { failure: Some(e) },
            None => self,
        }
    }

    /// What a poll for an inbound substream yields after polling for inbound streams gave
    /// `streams`.
    pub open spec fn inbound<S>(self, streams: StreamsPoll<S>) -> Poll<Result<S, ConnectionError>> {
        match self.failure {
            Some(e) => Poll::Ready(Err(e)),
            None => inbound_outcome(streams),
        }
    }

    /// The muxer after a poll for an inbound substream.
    pub open spec fn after_inbound<S>(self, streams: StreamsPoll<S>) -> SyncQuicMuxer {
        if self.failure.is_some() {
            self
        } else {
            SyncQuicMuxer { failure: streams_failure(streams) }
        }
    }

    /// The muxer of a connection that has just been established.
    pub fn new() -> (muxer: SyncQuicMuxer)
        ensures
            muxer.failure.is_none(),
    {
        SyncQuicMuxer { failure: None }
    }

    /// Takes what polling the driver gave. Where the connection has failed, the failure
    /// is returned and is the answer to the operation that asked: the one that the driver
    /// reports now, or else the one remembered from before. Otherwise the operation goes
    /// on.
    pub fn poll_driver(&mut self, driver: DriverPoll) -> (failure: Option<ConnectionError>)
        ensures
            *final(self) == old(self).driven(driver),
            failure == final(self).failure,
    {
        match driver {
            DriverPoll::Pending => {},
            DriverPoll::Finished => { self.failure = Some(ConnectionError::LocallyClosed); },
            DriverPoll::Failed(e) => { self.failure = Some(e); },
        }
        self.failure
    }

    /// Takes what polling for inbound streams gave, after the driver was polled, and says
    /// what the poll for an inbound substream yields. The end of the streams is a failure:
    /// the poll never stays pending on a connection that is closed.
    pub fn poll_inbound<S>(&mut self, streams: StreamsPoll<S>) -> (poll: Poll<
        Result<S, ConnectionError>,
    >)
        ensures
            poll == old(self).inbound(streams),
            *final(self) == old(self).after_inbound(streams),
    {
        match self.failure {
            Some(e) => Poll::Ready(Err(e)),
            None => match streams {
                StreamsPoll::Pending => Poll::Pending,
                StreamsPoll::Opened(stream) => Poll::Ready(Ok(stream)),
                StreamsPoll::Failed(e) => {
                    self.failure = Some(e);
                    Poll::Ready(Err(e))
                },
                StreamsPoll::Closed => {
                    self.failure = Some(ConnectionError::LocallyClosed);
                    Poll::Ready(Err(ConnectionError::LocallyClosed))
                },
            },
        }
    }

    /// Whether a substream may be opened: not on a connection that has failed.
    pub fn open_outbound(&self) -> (r: Result<(), ConnectionError>)
        ensures
            r == (match self.failure {
                Some(e) => Err::<(), ConnectionError>(e),
                None => Ok::<(), ConnectionError>(()),
            }),
    {
        match self.failure {
            Some(e) => Err(e),
            None => Ok(()),
        }
    }

    /// Whether the remote has acknowledged the connection: a connection that is
    /// established has been acknowledged.
    pub fn is_remote_acknowledged(&self) -> (acknowledged: bool)
        ensures
            acknowledged,
    {
        true
    }
}

impl QuicStream {
    /// The substream of the stream `id`.
    pub fn new(id: u64) -> (substream: QuicStream)
        ensures
            substream == (QuicStream { id: Some(id), shutdown: false }),
    {
        QuicStream { id: Some(id), shutdown: false }
    }

    /// The stream to write to. Writing is refused after the substream was shut down or
    /// released.
    pub fn poll_write(&self) -> (r: Result<u64, SubstreamError>)
        ensures
            r == (if self.shutdown {
                Err::<u64, SubstreamError>(SubstreamError::WrittenAfterClose)
            } else {
                match self.id {
                    Some(id) => Ok::<u64, SubstreamError>(id),
                    None => Err::<u64, SubstreamError>(SubstreamError::Released),
                }
            }),
    {
        if self.shutdown {
            return Err(SubstreamError::WrittenAfterClose);
        }
        match self.id {
            Some(id) => Ok(id),
            None => Err(SubstreamError::Released),
        }
    }

    /// The stream to read from. Reading goes on after the substream was shut down for
    /// writing.
    pub fn poll_read(&self) -> (r: Result<u64, SubstreamError>)
        ensures
            r == (match self.id {
                Some(id) => Ok::<u64, SubstreamError>(id),
                None => Err::<u64, SubstreamError>(SubstreamError::Released),
            }),
    {
        match self.id {
            Some(id) => Ok(id),
            None => Err(SubstreamError::Released),
        }
    }

    /// Shuts the substream down for writing and gives the stream to finish. What was
    /// written before is delivered before the peer sees the end.
    pub fn poll_close(&mut self) -> (r: Result<u64, SubstreamError>)
        ensures
            final(self).shutdown,
            final(self).id == old(self).id,
            r == (match old(self).id {
                Some(id) => Ok::<u64, SubstreamError>(id),
                None => Err::<u64, SubstreamError>(SubstreamError::Released),
            }),
    {
        self.shutdown = true;
        match self.id {
            Some(id) => Ok(id),
            None => Err(SubstreamError::Released),
        }
    }

    /// Flushing has nothing to wait for.
    pub fn poll_flush(&self) -> (poll: Poll<Result<(), SubstreamError>>)
        ensures
            poll == Poll::Ready(Ok::<(), SubstreamError>(())),
    {
        Poll::Ready(Ok(()))
    }

    /// Releases the substream and gives the stream to destroy, once. Data that was
    /// written and not yet sent is not flushed by this.
    pub fn release(&mut self) -> (stream: Option<u64>)
        ensures
            stream == old(self).id,
            final(self).id.is_none(),
            final(self).shutdown == old(self).shutdown,
    {
        self.id.take()
    }
}

/// A failure of the connection is final: once the muxer has one, it never goes back to
/// having none, a driver with more to do leaves it as it is, and every poll for an inbound
/// substream is answered with it, whatever the streams gave.
pub proof fn lemma_failure_is_final<S>(
    muxer: SyncQuicMuxer,
    driver: DriverPoll,
    streams: StreamsPoll<S>,
)
    requires
        muxer.failure.is_some(),
    ensures
        muxer.driven(driver).failure.is_some(),
        muxer.driven(DriverPoll::Pending) == muxer,
        muxer.after_inbound(streams) == muxer,
        muxer.inbound(streams) == Poll::Ready(
            Err::<S, ConnectionError>(muxer.failure.unwrap()),
        ),
{
}

/// The failure that the driver reports is the answer to the operation that polled it,
/// whatever was remembered before.
pub proof fn lemma_driver_failure_is_the_answer(muxer: SyncQuicMuxer, e: ConnectionError)
    ensures
        muxer.driven(DriverPoll::Failed(e)).failure == Some(e),
{
}

/// A failure of the driver reaches the operation that polls next: after the driver failed
/// or finished, the poll for an inbound substream yields a failure, whatever the streams
/// gave.
pub proof fn lemma_driver_failure_propagates<S>(
    muxer: SyncQuicMuxer,
    driver: DriverPoll,
    streams: StreamsPoll<S>,
)
    requires
        !(driver is Pending),
    ensures
        muxer.driven(driver).inbound(streams) is Ready,
        muxer.driven(driver).inbound(streams)->Ready_0.is_err(),
{
}

/// A poll for an inbound substream on a connection that is closed or has failed is never
/// pending: it yields a failure.
pub proof fn lemma_closed_is_not_pending<S>(streams: StreamsPoll<S>)
    requires
        streams is Closed || streams is Failed,
    ensures
        inbound_outcome(streams) is Ready,
        inbound_outcome(streams)->Ready_0.is_err(),
{
}

} // verus!
