//! Decision logic of the device link multiplexer's worker.
//!
//! One dedicated worker owns the serial handle for its whole lifetime and
//! drains a bounded command queue in submission order; between commands it
//! polls for unsolicited telegrams. The queue, the reply slots and the
//! blocking reads live in the unverified shell around the library; what the
//! worker decides for each queue state, which bytes go out, which reply a
//! transaction gets, and which telegram bytes are published, is verified
//! here.

use vstd::prelude::*;

use crate::framing::{spec_parse_telegram, parse_telegram};

verus! {

/// Why an operation on the link failed.
#[derive(Clone, Copy, Debug, PartialEq, Eq, Structural)]
pub enum Error {
    /// A single read or write exceeded its deadline. Routine and retried
    /// silently while polling; surfaced when it hits an active transaction.
    IoTimeout,
    /// The worker has terminated; fatal for all later operations on this
    /// link instance.
    ChannelClosed,
    /// An unrecoverable I/O fault on the link.
    Io,
}

/// One queued command toward the worker, in submission order. The reply
/// slot of a write-then-read transaction belongs to the unverified shell;
/// here a transaction is the bytes it writes.
#[derive(Debug)]
pub enum Command {
    /// Fire-and-forget write.
    Write(Vec<u8>),
    /// Write, then hand the first complete reply frame back.
    WriteRead(Vec<u8>),
    /// Drain and terminate the worker.
    Close,
}

/// What the worker finds when it polls the queue.
#[derive(Debug)]
pub enum QueuePoll {
    /// A command arrived; commands are handled strictly in arrival order.
    Received(Command),
    /// The queue is empty; the worker may look for unsolicited telegrams.
    Empty,
    /// Every submitter is gone; the worker terminates.
    Disconnected,
}

/// What the worker does next.
#[derive(Debug)]
pub enum WorkerAction {
    /// Write these bytes to the link; no reply is owed.
    SendBytes(Vec<u8>),
    /// Write these bytes, read until a complete frame, reply with it.
    Transact(Vec<u8>),
    /// Perform one bounded non-blocking poll read for telegrams.
    PollTelegrams,
    /// Terminate; all in-flight and future callers see a closed channel.
    Stop,
}

/// The worker's failure policy: a timeout is routine (it merely means no
/// telegram or reply arrived yet) and the worker goes on; a closed channel
/// or an unrecoverable I/O fault terminates it.
pub fn worker_survives(e: &Error) -> (r: bool)
    ensures
        r == (*e == Error::IoTimeout),
{
    match e {
        Error::IoTimeout => true,
        Error::ChannelClosed => false,
        Error::Io => false,
    }
}

/// Decides the worker's next action from one queue poll: a received command
/// is performed, an empty queue yields one telegram poll, and a closed or
/// disconnected queue terminates the worker.
pub fn worker_step(poll: QueuePoll) -> (a: WorkerAction)
    ensures
        match poll {
            QueuePoll::Received(Command::Write(d)) => a matches WorkerAction::SendBytes(b) && b@
                == d@,
            QueuePoll::Received(Command::WriteRead(d)) => a matches WorkerAction::Transact(b) && b@
                == d@,
            QueuePoll::Received(Command::Close) => a is Stop,
            QueuePoll::Empty => a is PollTelegrams,
            QueuePoll::Disconnected => a is Stop,
        },
{
    match poll {
        QueuePoll::Received(Command::Write(d)) => WorkerAction::SendBytes(d),
        QueuePoll::Received(Command::WriteRead(d)) => WorkerAction::Transact(d),
        QueuePoll::Received(Command::Close) => WorkerAction::Stop,
        QueuePoll::Empty => WorkerAction::PollTelegrams,
        QueuePoll::Disconnected => WorkerAction::Stop,
    }
}

/// The reply a write-then-read transaction receives: the first complete
/// frame of the read, or an empty reply when the read produced none.
pub fn reply_for(frames: &Vec<Vec<u8>>) -> (r: Vec<u8>)
    ensures
        frames@.len() == 0 ==> r@ == Seq::<u8>::empty(),
        frames@.len() > 0 ==> r@ == frames@[0]@,
{
    if frames.len() == 0 {
        Vec::new()
    } else {
        frames[0].clone()
    }
}

/// The telegram bytes in a sequence of frames, in order: the status byte of
/// every frame that is a telegram.
pub open spec fn spec_telegrams(fs: Seq<Seq<u8>>) -> Seq<u8>
    decreases fs.len(),
{
    if fs.len() == 0 {
        Seq::empty()
    } else {
        (match spec_parse_telegram(fs[0]) {
            Option::Some(k) => seq![k],
            Option::None => Seq::empty(),
        }) + spec_telegrams(fs.drop_first())
    }
}

/// Extracts, in order, the status byte of every frame that is a telegram;
/// the worker publishes each to the broadcast cell.
pub fn telegrams_in(frames: &Vec<Vec<u8>>) -> (r: Vec<u8>)
    ensures
        r@ == spec_telegrams(frames@.map_values(|f: Vec<u8>| f@)),
{
    let ghost fs = frames@.map_values(|f: Vec<u8>| f@);
    let mut r: Vec<u8> = Vec::new();
    let mut i: usize = 0;
    proof {
        assert(fs.skip(0) =~= fs);
    }
    while i < frames.len()
        invariant
            i <= frames@.len(),
            fs == frames@.map_values(|f: Vec<u8>| f@),
            spec_telegrams(fs) == r@ + spec_telegrams(fs.skip(i as int)),
        decreases frames@.len() - i,
    {
        proof {
            assert(fs.skip(i as int).drop_first() =~= fs.skip(i + 1));
            assert(fs.skip(i as int)[0] == fs[i as int]);
        }
        match parse_telegram(frames[i].as_slice()) {
            Some(k) => {
                r.push(k);
            },
            None => {},
        }
        i += 1;
    }
    proof {
        assert(fs.skip(frames@.len() as int) =~= Seq::<Seq<u8>>::empty());
        assert(r@ =~= spec_telegrams(fs));
    }
    r
}

} // verus!
