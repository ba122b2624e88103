//! The buffer stage: a bounded queue between the render loop and a draining
//! thread that feeds the next stage. A full queue blocks the producer; a
//! queue whose draining side is gone fails permanently.

use vstd::prelude::*;
use crate::frame::{Frame, FrameHandler, HandleFrameError, RenderMetadata};

verus! {

/// crossbeam_channel's sending handle, carried as an opaque value.
#[verifier::external_type_specification]
#[verifier::external_body]
#[verifier::reject_recursive_types(T)]
pub struct ExSender<T>(crossbeam_channel::Sender<T>);

/// crossbeam_channel's receiving handle, carried as an opaque value.
#[verifier::external_type_specification]
#[verifier::external_body]
#[verifier::reject_recursive_types(T)]
pub struct ExReceiver<T>(crossbeam_channel::Receiver<T>);

/// What the producer side hands to the draining side.
pub enum BufferMessage {
    Metadata(RenderMetadata),
    Frame(Frame),
    Finish,
}

/// The number of messages a queue holds before a send has to wait.
pub uninterp spec fn queue_capacity(sender: crossbeam_channel::Sender<BufferMessage>) -> nat;

/// Relies on crossbeam_channel::bounded: a queue that holds at most
/// `capacity` messages (zero makes every send wait for a receive). It panics
/// only for capacities too large to set up, far above `u32::MAX`.
#[verifier::external_body]
fn bounded_queue(capacity: usize) -> (r: (crossbeam_channel::Sender<BufferMessage>, crossbeam_channel::Receiver<BufferMessage>))
    requires
        capacity <= u32::MAX,
    ensures
        queue_capacity(r.0) == capacity,
{
    crossbeam_channel::bounded(capacity)
}

/// Relies on crossbeam_channel::Receiver::recv: blocks until a message
/// comes; `None` once the queue is empty and every sender is gone.
#[verifier::external_body]
fn receive_message(receiver: &crossbeam_channel::Receiver<BufferMessage>) -> (r: Option<BufferMessage>) {
    receiver.recv().ok()
}

/// Relies on crossbeam_channel::Sender::len: the number of messages queued
/// now, which the draining thread changes at any time.
#[verifier::external_body]
fn queued_messages(sender: &crossbeam_channel::Sender<BufferMessage>) -> (r: usize) {
    sender.len()
}

/// Relies on crossbeam_channel::Sender::is_full: whether a send would block
/// now, which the draining thread changes at any time.
#[verifier::external_body]
fn queue_is_full(sender: &crossbeam_channel::Sender<BufferMessage>) -> (r: bool) {
    sender.is_full()
}

/// The producer side of the buffer stage.
pub struct RenderBufferer {
    sender: crossbeam_channel::Sender<BufferMessage>,
    open: bool,
    sent: Ghost<Seq<BufferMessage>>,
}

/// The draining side of the buffer stage, to be run on a thread of its own.
pub struct BufferDrain {
    receiver: crossbeam_channel::Receiver<BufferMessage>,
    received: Ghost<Seq<BufferMessage>>,
    answers: Ghost<Seq<Result<(), HandleFrameError>>>,
}

impl RenderBufferer {
    pub closed spec fn is_open(&self) -> bool {
        self.open
    }

    /// The bound of the queue, while the stage is open.
    pub closed spec fn capacity(&self) -> Option<nat> {
        if self.open { Some(queue_capacity(self.sender)) } else { None }
    }

    /// Every message handed to the queue so far, in order, whether or not
    /// the draining side was still there to take it.
    pub closed spec fn sent(&self) -> Seq<BufferMessage> {
        self.sent@
    }

    /// Relies on crossbeam_channel::Sender::send: hands `message` to the
    /// queue, blocking while it is full; `false` once every receiver is gone.
    /// Whether it succeeds depends on the other thread, so nothing is
    /// promised of the result.
    #[verifier::external_body]
    fn send(&mut self, message: BufferMessage) -> (r: bool)
        requires
            old(self).is_open(),
        ensures
            final(self).sent() == old(self).sent().push(message),
            final(self).open == old(self).open,
            final(self).sender == old(self).sender,
    {
        self.sender.send(message).is_ok()
    }

    /// A buffer stage whose queue holds `buffer_size` messages, and the
    /// draining side that must run for it to make progress.
    pub fn new(buffer_size: usize) -> (r: (RenderBufferer, BufferDrain))
        requires
            buffer_size <= u32::MAX,
        ensures
            r.0.is_open(),
            r.0.capacity() == Some(buffer_size as nat),
            r.0.sent().len() == 0,
    {
        let (sender, receiver) = bounded_queue(buffer_size);
        (
            RenderBufferer { sender, open: true, sent: Ghost(Seq::empty()) },
            BufferDrain { receiver, received: Ghost(Seq::empty()), answers: Ghost(Seq::empty()) },
        )
    }

    /// Queues a frame, waiting while the queue is full. `PermanentError` once
    /// the draining side is gone or the stage was closed; never a temporary
    /// failure.
    pub fn enqueue_frame(&mut self, frame: Frame) -> (r: Result<(), HandleFrameError>)
        ensures
            final(self).is_open() == old(self).is_open(),
            final(self).capacity() == old(self).capacity(),
            r is Err ==> r == Err::<(), HandleFrameError>(HandleFrameError::PermanentError),
            !old(self).is_open() ==> r == Err::<(), HandleFrameError>(HandleFrameError::PermanentError)
                && final(self).sent() == old(self).sent(),
            old(self).is_open() ==> final(self).sent() == old(self).sent().push(BufferMessage::Frame(frame)),
    {
        if !self.open {
            return Err(HandleFrameError::PermanentError);
        }
        if self.send(BufferMessage::Frame(frame)) {
            Ok(())
        } else {
            Err(HandleFrameError::PermanentError)
        }
    }

    /// Queues the metadata for the next stage, where the stage is open.
    pub fn enqueue_metadata(&mut self, metadata: RenderMetadata)
        ensures
            final(self).is_open() == old(self).is_open(),
            final(self).capacity() == old(self).capacity(),
            !old(self).is_open() ==> final(self).sent() == old(self).sent(),
            old(self).is_open() ==> final(self).sent() == old(self).sent().push(BufferMessage::Metadata(metadata)),
    {
        if self.open {
            let _ = self.send(BufferMessage::Metadata(metadata));
        }
    }

    /// Messages waiting in the queue now; none once the stage is closed.
    pub fn pending(&self) -> (r: usize)
        ensures
            !self.is_open() ==> r == 0,
    {
        if self.open { queued_messages(&self.sender) } else { 0 }
    }

    /// Whether the next frame would have to wait for the draining side;
    /// never once the stage is closed, as it then fails at once.
    pub fn is_full(&self) -> (r: bool)
        ensures
            !self.is_open() ==> !r,
    {
        if self.open { queue_is_full(&self.sender) } else { false }
    }

    /// Asks the draining side to tear down, and takes no message after that.
    pub fn close(&mut self)
        ensures
            !final(self).is_open(),
            !old(self).is_open() ==> final(self).sent() == old(self).sent(),
            old(self).is_open() ==> final(self).sent() == old(self).sent().push(BufferMessage::Finish),
    {
        if self.open {
            let _ = self.send(BufferMessage::Finish);
            self.open = false;
        }
    }
}

impl FrameHandler for RenderBufferer {
    fn set_metadata(&mut self, metadata: RenderMetadata)
        ensures
            final(self).is_open() == old(self).is_open(),
            !old(self).is_open() ==> final(self).sent() == old(self).sent(),
            old(self).is_open() ==> final(self).sent() == old(self).sent().push(BufferMessage::Metadata(metadata)),
    {
        self.enqueue_metadata(metadata);
    }

    fn handle_frame(&mut self, frame: Frame) -> (r: Result<(), HandleFrameError>)
        ensures
            final(self).is_open() == old(self).is_open(),
            r is Err ==> r == Err::<(), HandleFrameError>(HandleFrameError::PermanentError),
            !old(self).is_open() ==> r == Err::<(), HandleFrameError>(HandleFrameError::PermanentError)
                && final(self).sent() == old(self).sent(),
            old(self).is_open() ==> final(self).sent() == old(self).sent().push(BufferMessage::Frame(frame)),
    {
        self.enqueue_frame(frame)
    }

    fn finish(&mut self)
        ensures
            !final(self).is_open(),
            !old(self).is_open() ==> final(self).sent() == old(self).sent(),
            old(self).is_open() ==> final(self).sent() == old(self).sent().push(BufferMessage::Finish),
    {
        self.close();
    }
}

/// Whether the draining side goes on after the next stage answered a frame:
/// a temporary failure is swallowed, a permanent one stops it.
pub fn keeps_draining(result: &Result<(), HandleFrameError>) -> (r: bool)
    ensures
        r == (*result != Err::<(), HandleFrameError>(HandleFrameError::PermanentError)),
{
    match result {
        Err(HandleFrameError::PermanentError) => false,
        _ => true,
    }
}

/// Hands one message to the next stage, and says whether draining goes on
/// together with the next stage's answer to a frame. Metadata always lets it
/// go on; a teardown request ends it; a frame's answer decides through
/// [`keeps_draining`]. Where draining ends the next stage is torn down.
pub fn dispatch<FH: FrameHandler>(inner: &mut FH, message: BufferMessage) -> (r: (bool, Option<Result<(), HandleFrameError>>))
    ensures
        message is Metadata ==> r == (true, None::<Result<(), HandleFrameError>>),
        message is Finish ==> r == (false, None::<Result<(), HandleFrameError>>),
        message is Frame ==> r.1 is Some && r.0 == (r.1->0 != Err::<(), HandleFrameError>(HandleFrameError::PermanentError)),
{
    match message {
        BufferMessage::Metadata(m) => {
            inner.set_metadata(m);
            (true, None)
        },
        BufferMessage::Frame(f) => {
            let result = inner.handle_frame(f);
            if keeps_draining(&result) {
                (true, Some(result))
            } else {
                inner.finish();
                (false, Some(result))
            }
        },
        BufferMessage::Finish => {
            inner.finish();
            (false, None)
        },
    }
}

impl BufferDrain {
    /// The messages taken from the queue so far, in order.
    pub closed spec fn received(&self) -> Seq<BufferMessage> {
        self.received@
    }

    /// The next stage's answer to each frame taken so far.
    pub closed spec fn answers(&self) -> Seq<Result<(), HandleFrameError>> {
        self.answers@
    }

    /// Waits for the next message and hands it on; `false` once draining is
    /// over (the producer side is gone, asked for teardown, or the next stage
    /// failed permanently), by which time the next stage was torn down.
    pub fn drain_next<FH: FrameHandler>(&mut self, inner: &mut FH) -> (r: bool)
        ensures
            final(self).received() == old(self).received() ==> !r && final(self).answers() == old(self).answers(),
            final(self).received() != old(self).received() ==> {
                let m = final(self).received().last();
                &&& final(self).received() == old(self).received().push(m)
                &&& m is Metadata ==> r && final(self).answers() == old(self).answers()
                &&& m is Finish ==> !r && final(self).answers() == old(self).answers()
                &&& m is Frame ==> final(self).answers().len() == old(self).answers().len() + 1
                    && final(self).answers().drop_last() == old(self).answers()
                    && r == (final(self).answers().last() != Err::<(), HandleFrameError>(HandleFrameError::PermanentError))
            },
    {
        match receive_message(&self.receiver) {
            None => {
                inner.finish();
                false
            },
            Some(m) => {
                let ghost g = m;
                let (go_on, answer) = dispatch(inner, m);
                self.received = Ghost(self.received@.push(g));
                proof {
                    assert(self.received@ != old(self).received@) by {
                        assert(self.received@.len() != old(self).received@.len());
                    }
                    assert(self.received@.last() == g);
                }
                if let Some(a) = answer {
                    self.answers = Ghost(self.answers@.push(a));
                    proof {
                        assert(self.answers@.drop_last() =~= old(self).answers@);
                    }
                }
                go_on
            },
        }
    }
}

} // verus!
