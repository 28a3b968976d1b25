use vstd::prelude::*;
use crate::error::{error_of, AVError, Error, AVERROR_EOF, EAGAIN};

verus! {

/// What a submit or retrieve call of a coder reported.
#[derive(Debug)]
pub enum CodecStatus {
    /// The call did its work.
    Ready,
    /// Not now: drain output before submitting, or submit before retrieving.
    WouldBlock,
    /// The coder has been flushed and has nothing more to give.
    EndOfStream,
    /// A fatal error for this stream.
    Failed(Error),
}

/// The status that a return value of a coder call stands for.
pub open spec fn spec_codec_status(ret: i32) -> CodecStatus {
    if ret >= 0 {
        CodecStatus::Ready
    } else if ret == EAGAIN {
        CodecStatus::WouldBlock
    } else if ret == AVERROR_EOF {
        CodecStatus::EndOfStream
    } else {
        CodecStatus::Failed(error_of(ret))
    }
}

/// Classifies a return value of a coder's submit or retrieve call.
pub fn codec_status(ret: i32) -> (r: CodecStatus)
    ensures
        r == spec_codec_status(ret),
{
    if ret >= 0 {
        CodecStatus::Ready
    } else if ret == EAGAIN {
        CodecStatus::WouldBlock
    } else if ret == AVERROR_EOF {
        CodecStatus::EndOfStream
    } else {
        CodecStatus::Failed(Error::new(ret))
    }
}

/// Where a decoder or encoder stands in its life.
#[derive(Debug, Clone, Copy, PartialEq, Eq, Structural)]
pub enum CoderPhase {
    /// Allocated and being configured.
    Configured,
    /// Open: taking input and giving output.
    Opened,
    /// Took its end-of-input marker; only draining is left.
    Flushing,
    /// Reported its end, or failed: nothing more can be done with it.
    Closed,
}

/// The submit/retrieve protocol of one coder: input is submitted only while
/// open and after all available output was retrieved (a retrieval answered
/// "would block"); after the end-of-input marker only retrievals follow, and
/// after the end nothing.
#[derive(Debug, Clone, Copy, PartialEq, Eq, Structural)]
pub struct CoderState {
    pub phase: CoderPhase,
    /// Every output the coder had was retrieved.
    pub drained: bool,
}

impl CoderState {
    pub fn new() -> (r: CoderState)
        ensures
            r == (CoderState { phase: CoderPhase::Configured, drained: true }),
    {
        CoderState { phase: CoderPhase::Configured, drained: true }
    }

    /// Records the result of opening: a negative status leaves it configured.
    pub fn on_open(&mut self, ret: i32) -> (r: Result<(), Error>)
        ensures
            old(self).phase != CoderPhase::Configured ==> r == Err::<(), Error>(Error::Av(AVError::Bug))
                && *final(self) == *old(self),
            old(self).phase == CoderPhase::Configured && ret < 0 ==> r == Err::<(), Error>(error_of(ret))
                && *final(self) == *old(self),
            old(self).phase == CoderPhase::Configured && ret >= 0 ==> r is Ok && *final(self) == (
            CoderState { phase: CoderPhase::Opened, drained: true }),
    {
        if self.phase != CoderPhase::Configured {
            return Err(Error::Av(AVError::Bug));
        }
        if ret < 0 {
            return Err(Error::new(ret));
        }
        self.phase = CoderPhase::Opened;
        self.drained = true;
        Ok(())
    }

    /// Whether input may be submitted now.
    pub open spec fn spec_may_submit(self) -> bool {
        self.phase == CoderPhase::Opened && self.drained
    }

    /// Refuses a submission that the protocol does not allow: before opening
    /// (a bug of the caller), with output still to retrieve ("would block"),
    /// or after the end-of-input marker (end of stream).
    pub fn before_submit(&self) -> (r: Result<(), Error>)
        ensures
            r is Ok <==> self.spec_may_submit(),
            self.phase == CoderPhase::Configured ==> r == Err::<(), Error>(Error::Av(AVError::Bug)),
            self.phase == CoderPhase::Opened && !self.drained ==> r == Err::<(), Error>(error_of(EAGAIN)),
            self.phase == CoderPhase::Flushing || self.phase == CoderPhase::Closed ==> r == Err::<(), Error>(
                Error::Av(AVError::Eof)),
    {
        match self.phase {
            CoderPhase::Configured => Err(Error::Av(AVError::Bug)),
            CoderPhase::Opened => if self.drained {
                Ok(())
            } else {
                Err(Error::new(EAGAIN))
            },
            CoderPhase::Flushing | CoderPhase::Closed => Err(Error::Av(AVError::Eof)),
        }
    }

    /// Records the result of a submission allowed by `before_submit`; `flush`
    /// tells whether it was the end-of-input marker.
    pub fn after_submit(&mut self, flush: bool, ret: i32) -> (r: CodecStatus)
        requires
            old(self).spec_may_submit(),
        ensures
            r == spec_codec_status(ret),
            ret >= 0 ==> *final(self) == (CoderState {
                phase: if flush { CoderPhase::Flushing } else { CoderPhase::Opened },
                drained: false,
            }),
            ret == EAGAIN ==> *final(self) == (CoderState { phase: CoderPhase::Opened, drained: false }),
            ret < 0 && ret != EAGAIN ==> final(self).phase == CoderPhase::Closed,
    {
        let r = codec_status(ret);
        match r {
            CodecStatus::Ready => {
                self.drained = false;
                if flush {
                    self.phase = CoderPhase::Flushing;
                }
            },
            CodecStatus::WouldBlock => {
                self.drained = false;
            },
            CodecStatus::EndOfStream | CodecStatus::Failed(_) => {
                self.phase = CoderPhase::Closed;
            },
        }
        r
    }

    /// Records the result of a retrieval: "would block" means drained, the
    /// end or a failure closes the coder.
    pub fn after_retrieve(&mut self, ret: i32) -> (r: CodecStatus)
        ensures
            r == spec_codec_status(ret),
            ret >= 0 ==> *final(self) == *old(self),
            ret == EAGAIN ==> *final(self) == (CoderState { drained: true, ..*old(self) }),
            ret < 0 && ret != EAGAIN ==> final(self).phase == CoderPhase::Closed,
    {
        let r = codec_status(ret);
        match r {
            CodecStatus::Ready => {},
            CodecStatus::WouldBlock => {
                self.drained = true;
            },
            CodecStatus::EndOfStream | CodecStatus::Failed(_) => {
                self.phase = CoderPhase::Closed;
            },
        }
        r
    }
}

} // verus!
