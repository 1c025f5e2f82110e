use vstd::prelude::*;

verus! {

/// The pipe a tee worker serves, which fixes where its bytes are written.
#[derive(PartialEq, Eq, Structural, Debug, Clone, Copy)]
pub enum Channel {
    /// Child's standard output, relayed to the wrapper's standard output.
    Stdout,
    /// Child's standard error, relayed to the wrapper's standard error.
    Stderr,
    /// Wrapper's standard input, forwarded to the child's standard input.
    Stdin,
}

/// What one read from the source of a worker gave.
pub enum ReadEvent {
    /// Some bytes; an empty chunk means the end of the stream.
    Chunk(Vec<u8>),
    /// The read failed.
    Failed,
}

/// What the worker does next.
#[derive(Debug)]
pub enum TeeAction {
    /// Write these bytes to the channel's destination, then read again.
    Write(Vec<u8>),
    /// The stream is over: stop.
    Finish,
    /// Report the failed read or write on the diagnostic stream, then stop.
    ReportAndFinish,
}

/// The abstract state of a worker.
pub ghost struct TeeState {
    pub channel: Channel,
    pub captured: Seq<u8>,
    pub done: bool,
}

/// The decisions of one worker that copies a stream to its destination and
/// keeps a copy of every byte.
pub struct StreamTee {
    channel: Channel,
    captured: Vec<u8>,
    done: bool,
}

impl View for StreamTee {
    type V = TeeState;

    closed spec fn view(&self) -> TeeState {
        TeeState { channel: self.channel, captured: self.captured@, done: self.done }
    }
}

impl StreamTee {
    /// A worker for `channel` that has captured nothing yet.
    pub fn new(channel: Channel) -> (r: StreamTee)
        ensures
            r@.channel == channel,
            r@.captured == Seq::<u8>::empty(),
            !r@.done,
    {
        StreamTee { channel, captured: Vec::new(), done: false }
    }

    /// The channel this worker serves.
    pub fn channel(&self) -> (r: Channel)
        ensures
            r == self@.channel,
    {
        self.channel
    }

    /// Whether the worker should read again. A forwarder of standard input
    /// also stops once the child has finished, since nobody reads its pipe.
    pub fn wants_read(&self, child_finished: bool) -> (r: bool)
        ensures
            r == (!self@.done && !(self@.channel == Channel::Stdin && child_finished)),
    {
        !self.done && !(self.channel == Channel::Stdin && child_finished)
    }

    /// Handles the result of one read: a chunk is captured and handed back to
    /// be written; the end of the stream or a failure stops the worker.
    pub fn on_read(&mut self, event: ReadEvent) -> (r: TeeAction)
        requires
            !old(self)@.done,
        ensures
            final(self)@.channel == old(self)@.channel,
            match event {
                ReadEvent::Chunk(c) => if c@.len() > 0 {
                    &&& r matches TeeAction::Write(w) && w@ == c@
                    &&& final(self)@.captured == old(self)@.captured + c@
                    &&& !final(self)@.done
                } else {
                    &&& r is Finish
                    &&& final(self)@.captured == old(self)@.captured
                    &&& final(self)@.done
                },
                ReadEvent::Failed => {
                    &&& r is ReportAndFinish
                    &&& final(self)@.captured == old(self)@.captured
                    &&& final(self)@.done
                },
            },
    {
        match event {
            ReadEvent::Chunk(c) => {
                if c.len() == 0 {
                    self.done = true;
                    TeeAction::Finish
                } else {
                    let mut copy = c.clone();
                    assert(copy@ == c@);
                    self.captured.append(&mut copy);
                    TeeAction::Write(c)
                }
            },
            ReadEvent::Failed => {
                self.done = true;
                TeeAction::ReportAndFinish
            },
        }
    }

    /// Handles a failed write of a chunk to the destination: the worker
    /// stops, keeps what it captured, and the failure is reported.
    pub fn on_write_failed(&mut self) -> (r: TeeAction)
        ensures
            r is ReportAndFinish,
            final(self)@.channel == old(self)@.channel,
            final(self)@.captured == old(self)@.captured,
            final(self)@.done,
    {
        self.done = true;
        TeeAction::ReportAndFinish
    }

    /// The bytes captured so far.
    pub fn captured(&self) -> (r: &Vec<u8>)
        ensures
            r@ == self@.captured,
    {
        &self.captured
    }

    /// Ends the worker and hands over what it captured.
    pub fn into_captured(self) -> (r: Vec<u8>)
        ensures
            r@ == self@.captured,
    {
        self.captured
    }
}

} // verus!
