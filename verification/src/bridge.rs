//! The streaming bridge: adapts the engine's push-style callback protocol
//! (one synchronous invocation per produced fragment, tagged with a call
//! state) into a pull-style, in-order stream for the HTTP response writer.
//!
//! The bridge buffers at most `capacity` undelivered fragments. A fragment
//! offered against a full buffer is never dropped: the engine thread is told
//! to retry, and the fragment stays with it untouched. A fragment offered
//! after the consumer has disconnected is answered with a halt in one step,
//! so the engine-side delivery loop never spins against a closed end.

use vstd::prelude::*;

verus! {

/// The state tag carried by one engine callback invocation.
#[derive(Debug, Clone, Copy, PartialEq, Eq, Structural)]
pub enum CallState {
    /// The engine is still working; nothing was produced.
    Waiting,
    /// One fragment of output was produced.
    Normal,
    /// The engine finished cleanly; no further fragments follow.
    Finish,
    /// The engine failed; no further fragments follow.
    Error,
    /// An out-of-band diagnostic report; carries no stream output.
    Diagnostic,
}

/// What the engine-side delivery loop is told after handing the bridge one
/// callback invocation.
#[derive(Debug, Clone, Copy, PartialEq, Eq, Structural)]
pub enum BridgeStep {
    /// The fragment was accepted and will reach the consumer in order.
    Delivered,
    /// The consumer's buffer is full: nothing was lost, present the same
    /// fragment again once the consumer has drained.
    Retry,
    /// Delivery is over: the stream was closed or the consumer disconnected;
    /// the engine thread may stop delivering.
    Halt,
    /// The invocation carried nothing to deliver.
    Ignored,
}

/// The bridge between the engine's callback thread and the stream consumer.
pub struct Bridge {
    accepted: Vec<String>,
    served: usize,
    capacity: usize,
    finished: bool,
    receiver_open: bool,
}

impl Bridge {
    /// Every fragment accepted so far, in emission order.
    pub closed spec fn emitted(&self) -> Seq<Seq<char>> {
        self.accepted.deep_view()
    }

    /// How many accepted fragments the consumer has already pulled.
    pub closed spec fn served(&self) -> nat {
        self.served as nat
    }

    /// Every fragment the consumer has pulled so far, in order.
    pub open spec fn consumed(&self) -> Seq<Seq<char>> {
        self.emitted().take(self.served() as int)
    }

    /// The most undelivered fragments the bridge buffers.
    pub closed spec fn cap(&self) -> nat {
        self.capacity as nat
    }

    /// Has the stream been closed (engine finished or failed)?
    pub closed spec fn is_finished(&self) -> bool {
        self.finished
    }

    /// Is the consuming end still attached?
    pub closed spec fn is_receiver_open(&self) -> bool {
        self.receiver_open
    }

    /// The consumer never pulled more than was accepted, the buffer bound is
    /// positive, and the undelivered backlog never exceeds it.
    pub open spec fn wf(&self) -> bool {
        &&& self.served() <= self.emitted().len()
        &&& self.cap() >= 1
        &&& self.emitted().len() - self.served() <= self.cap()
    }

    /// A fresh bridge for one stream, buffering at most `capacity`
    /// undelivered fragments.
    pub fn new(capacity: usize) -> (b: Bridge)
        requires
            capacity >= 1,
        ensures
            b.emitted() =~= Seq::<Seq<char>>::empty(),
            b.served() == 0,
            b.cap() == capacity,
            !b.is_finished(),
            b.is_receiver_open(),
            b.wf(),
    {
        let b = Bridge {
            accepted: Vec::new(),
            served: 0,
            capacity,
            finished: false,
            receiver_open: true,
        };
        proof {
            assert(b.accepted.deep_view() =~= Seq::<Seq<char>>::empty());
        }
        b
    }

    /// Handles one engine callback invocation. `Normal` with a payload is a
    /// delivery attempt: accepted in order when there is room, answered with
    /// `Retry` (and no loss) when the buffer is full, and with `Halt` in a
    /// single step when the stream is closed or the consumer is gone.
    /// `Finish` and `Error` close the stream; `Waiting`, a payload-less
    /// `Normal` and diagnostic states deliver nothing.
    pub fn on_event(&mut self, state: CallState, payload: Option<&String>) -> (r: BridgeStep)
        requires
            old(self).wf(),
        ensures
            final(self).served() == old(self).served(),
            final(self).cap() == old(self).cap(),
            final(self).is_receiver_open() == old(self).is_receiver_open(),
            final(self).wf(),
            state is Finish || state is Error ==> {
                &&& r is Halt
                &&& final(self).is_finished()
                &&& final(self).emitted() == old(self).emitted()
            },
            state is Waiting || state is Diagnostic || (state is Normal && payload is None)
                ==> *final(self) == *old(self) && r is Ignored,
            state is Normal ==> (payload matches Some(f) ==> {
                &&& final(self).is_finished() == old(self).is_finished()
                &&& (!old(self).is_receiver_open() || old(self).is_finished()) ==> {
                    &&& r is Halt
                    &&& *final(self) == *old(self)
                }
                &&& old(self).is_receiver_open() && !old(self).is_finished() ==> {
                    &&& (old(self).emitted().len() - old(self).served() >= old(self).cap()) ==> {
                        &&& r is Retry
                        &&& *final(self) == *old(self)
                    }
                    &&& (old(self).emitted().len() - old(self).served() < old(self).cap()) ==> {
                        &&& r is Delivered
                        &&& final(self).emitted() =~= old(self).emitted().push(f@)
                    }
                }
            }),
    {
        match state {
            CallState::Waiting => BridgeStep::Ignored,
            CallState::Diagnostic => BridgeStep::Ignored,
            CallState::Finish => {
                self.finished = true;
                BridgeStep::Halt
            },
            CallState::Error => {
                self.finished = true;
                BridgeStep::Halt
            },
            CallState::Normal => {
                match payload {
                    None => BridgeStep::Ignored,
                    Some(f) => {
                        if !self.receiver_open || self.finished {
                            BridgeStep::Halt
                        } else if self.accepted.len() - self.served >= self.capacity {
                            BridgeStep::Retry
                        } else {
                            self.accepted.push(f.clone());
                            proof {
                                assert(self.accepted.deep_view()
                                    =~= old(self).accepted.deep_view().push(f@));
                            }
                            BridgeStep::Delivered
                        }
                    },
                }
            },
        }
    }

    /// Pulls the next fragment for the consumer: exactly the oldest
    /// undelivered fragment, or nothing when every accepted fragment has
    /// been delivered.
    pub fn take_next(&mut self) -> (r: Option<String>)
        requires
            old(self).wf(),
        ensures
            final(self).emitted() == old(self).emitted(),
            final(self).cap() == old(self).cap(),
            final(self).is_finished() == old(self).is_finished(),
            final(self).is_receiver_open() == old(self).is_receiver_open(),
            final(self).wf(),
            old(self).served() < old(self).emitted().len() ==> (r matches Some(f) && {
                &&& f@ == old(self).emitted()[old(self).served() as int]
                &&& final(self).served() == old(self).served() + 1
            }),
            old(self).served() == old(self).emitted().len()
                ==> r is None && *final(self) == *old(self),
    {
        if self.served < self.accepted.len() {
            let f = self.accepted[self.served].clone();
            self.served = self.served + 1;
            Some(f)
        } else {
            None
        }
    }

    /// Has the consumer seen the end of the stream: the stream is closed and
    /// every accepted fragment has been delivered?
    pub fn at_end(&self) -> (r: bool)
        ensures
            r == (self.is_finished() && self.served() == self.emitted().len()),
    {
        self.finished && self.served == self.accepted.len()
    }

    /// The consumer disconnects (the HTTP client went away): nothing else
    /// changes, and every later delivery attempt halts at once.
    pub fn disconnect(&mut self)
        ensures
            final(self).emitted() == old(self).emitted(),
            final(self).served() == old(self).served(),
            final(self).cap() == old(self).cap(),
            final(self).is_finished() == old(self).is_finished(),
            !final(self).is_receiver_open(),
            old(self).wf() ==> final(self).wf(),
    {
        self.receiver_open = false;
    }

    /// Pulls everything still undelivered, in order: what comes out is
    /// exactly the run of accepted fragments from the consumer's position to
    /// the end of the emission order.
    pub fn drain(&mut self) -> (r: Vec<String>)
        requires
            old(self).wf(),
        ensures
            final(self).emitted() == old(self).emitted(),
            final(self).cap() == old(self).cap(),
            final(self).is_finished() == old(self).is_finished(),
            final(self).is_receiver_open() == old(self).is_receiver_open(),
            final(self).served() == final(self).emitted().len(),
            final(self).wf(),
            r.deep_view() =~= old(self).emitted().skip(old(self).served() as int),
    {
        let mut r: Vec<String> = Vec::new();
        loop
            invariant
                self.wf(),
                self.emitted() == old(self).emitted(),
                self.cap() == old(self).cap(),
                self.is_finished() == old(self).is_finished(),
                self.is_receiver_open() == old(self).is_receiver_open(),
                old(self).served() <= self.served(),
                r.deep_view() =~= old(self).emitted().subrange(
                    old(self).served() as int,
                    self.served() as int,
                ),
            decreases self.emitted().len() - self.served(),
        {
            match self.take_next() {
                None => {
                    proof {
                        assert(r.deep_view() =~= old(self).emitted().skip(
                            old(self).served() as int,
                        ));
                    }
                    return r;
                },
                Some(f) => {
                    let ghost fv = f@;
                    let ghost prev = r.deep_view();
                    r.push(f);
                    proof {
                        assert(r.deep_view() =~= prev.push(fv));
                        assert(r.deep_view() =~= old(self).emitted().subrange(
                            old(self).served() as int,
                            self.served() as int,
                        ));
                    }
                },
            }
        }
    }
}

/// Order preservation: once the consumer has pulled every accepted fragment,
/// the sequence it consumed is exactly the sequence the engine emitted, in
/// the original order — the bridge neither reorders nor coalesces.
pub proof fn lemma_stream_order(b: Bridge)
    requires
        b.served() == b.emitted().len(),
    ensures
        b.consumed() =~= b.emitted(),
{
}

} // verus!
