use vstd::prelude::*;

use crate::error::CaptureError;

verus! {

/// The number of frames the frame pool buffers.
pub const FRAME_POOL_DEPTH: u32 = 2;

/// Where the capture of one frame stands.
#[derive(Clone, Copy, Debug, PartialEq, Eq, Structural)]
pub enum EngineStage {
    CreatePool,
    CreateSession,
    RegisterHandler,
    StartCapture,
    AwaitFrame,
    Finished,
    Failed(CaptureError),
}

/// What the platform reported for the last step.
#[derive(Clone, Copy, Debug, PartialEq, Eq, Structural)]
pub enum EngineEvent {
    StepSucceeded,
    StepFailed,
    FrameDelivered,
    ChannelClosed,
}

/// The step to perform next.
#[derive(Clone, Copy, Debug, PartialEq, Eq, Structural)]
pub enum EngineAction {
    /// Create a free-threaded frame pool of this depth, sized to the item.
    CreateFramePool { depth: u32 },
    CreateSession,
    /// Register the arrival handler; this happens before the capture starts.
    RegisterArrivalHandler,
    StartCapture,
    /// Block on the single-slot channel until a texture or its closing comes.
    AwaitFrame,
    ReturnTexture,
    Fail(CaptureError),
}

/// The stages before the wait for a frame.
pub open spec fn is_setup(s: EngineStage) -> bool {
    s == EngineStage::CreatePool || s == EngineStage::CreateSession || s == EngineStage::RegisterHandler
        || s == EngineStage::StartCapture
}

/// The error a failed setup stage ends the capture with.
pub open spec fn setup_error(s: EngineStage) -> CaptureError {
    if s == EngineStage::CreatePool {
        CaptureError::FramePoolCreation
    } else {
        CaptureError::CaptureSession
    }
}

/// The capture protocol: create the pool, the session, register the handler,
/// start, then wait for the one frame. Any setup failure ends the capture
/// before the wait; a channel that closes without a frame aborts it.
pub open spec fn engine_next(s: EngineStage, e: EngineEvent) -> (EngineStage, EngineAction) {
    if is_setup(s) {
        if e == EngineEvent::StepSucceeded {
            match s {
                EngineStage::CreatePool => (EngineStage::CreateSession, EngineAction::CreateSession),
                EngineStage::CreateSession => (EngineStage::RegisterHandler, EngineAction::RegisterArrivalHandler),
                EngineStage::RegisterHandler => (EngineStage::StartCapture, EngineAction::StartCapture),
                _ => (EngineStage::AwaitFrame, EngineAction::AwaitFrame),
            }
        } else {
            (EngineStage::Failed(setup_error(s)), EngineAction::Fail(setup_error(s)))
        }
    } else {
        match s {
            EngineStage::AwaitFrame => if e == EngineEvent::FrameDelivered {
                (EngineStage::Finished, EngineAction::ReturnTexture)
            } else {
                (
                    EngineStage::Failed(CaptureError::CaptureTimeoutOrAbort),
                    EngineAction::Fail(CaptureError::CaptureTimeoutOrAbort),
                )
            },
            EngineStage::Failed(err) => (EngineStage::Failed(err), EngineAction::Fail(err)),
            _ => (EngineStage::Finished, EngineAction::ReturnTexture),
        }
    }
}

/// The first stage of a capture and the action it asks for.
pub fn engine_start() -> (r: (EngineStage, EngineAction))
    ensures
        r == (EngineStage::CreatePool, EngineAction::CreateFramePool { depth: FRAME_POOL_DEPTH }),
{
    (EngineStage::CreatePool, EngineAction::CreateFramePool { depth: FRAME_POOL_DEPTH })
}

/// Advances the capture protocol by one reported event.
pub fn engine_step(s: EngineStage, e: EngineEvent) -> (r: (EngineStage, EngineAction))
    ensures
        r == engine_next(s, e),
{
    let setup = match s {
        EngineStage::CreatePool | EngineStage::CreateSession | EngineStage::RegisterHandler
        | EngineStage::StartCapture => true,
        _ => false,
    };
    if setup {
        if e == EngineEvent::StepSucceeded {
            match s {
                EngineStage::CreatePool => (EngineStage::CreateSession, EngineAction::CreateSession),
                EngineStage::CreateSession => (EngineStage::RegisterHandler, EngineAction::RegisterArrivalHandler),
                EngineStage::RegisterHandler => (EngineStage::StartCapture, EngineAction::StartCapture),
                _ => (EngineStage::AwaitFrame, EngineAction::AwaitFrame),
            }
        } else {
            let err = match s {
                EngineStage::CreatePool => CaptureError::FramePoolCreation,
                _ => CaptureError::CaptureSession,
            };
            (EngineStage::Failed(err), EngineAction::Fail(err))
        }
    } else {
        match s {
            EngineStage::AwaitFrame => if e == EngineEvent::FrameDelivered {
                (EngineStage::Finished, EngineAction::ReturnTexture)
            } else {
                (
                    EngineStage::Failed(CaptureError::CaptureTimeoutOrAbort),
                    EngineAction::Fail(CaptureError::CaptureTimeoutOrAbort),
                )
            },
            EngineStage::Failed(err) => (EngineStage::Failed(err), EngineAction::Fail(err)),
            _ => (EngineStage::Finished, EngineAction::ReturnTexture),
        }
    }
}

/// A frame pool that cannot be created (say, for a pixel format the
/// compositor does not take for the item) fails the capture with
/// `FramePoolCreation` at once: the wait for a frame is never entered. The
/// same holds of every other setup step, with `CaptureSession`.
pub proof fn lemma_setup_failure_skips_wait(s: EngineStage, e: EngineEvent)
    requires
        is_setup(s),
        e != EngineEvent::StepSucceeded,
    ensures
        engine_next(s, e).1 != EngineAction::AwaitFrame,
        engine_next(s, e) == (EngineStage::Failed(setup_error(s)), EngineAction::Fail(setup_error(s))),
        s == EngineStage::CreatePool ==> engine_next(s, e).1 == EngineAction::Fail(CaptureError::FramePoolCreation),
{
}

/// What the arrival handler does on one notification.
#[derive(Clone, Copy, Debug, PartialEq, Eq, Structural)]
pub enum ArrivalAction {
    /// Take the next frame, hand its texture to the waiting caller, then close
    /// the session and the frame pool.
    DeliverAndClose,
    /// The session was already torn down: do nothing.
    Ignore,
}

/// The arrival handler's decision, given whether teardown already happened.
/// Returns whether teardown has happened afterwards, and what to do.
pub open spec fn arrival_next(closed: bool) -> (bool, ArrivalAction) {
    if closed {
        (true, ArrivalAction::Ignore)
    } else {
        (true, ArrivalAction::DeliverAndClose)
    }
}

/// How many of `n` successive notifications tear the session down.
pub open spec fn teardowns(closed: bool, n: nat) -> nat
    decreases n,
{
    if n == 0 {
        0
    } else {
        let (c, a) = arrival_next(closed);
        (if a == ArrivalAction::DeliverAndClose { 1nat } else { 0nat }) + teardowns(c, (n - 1) as nat)
    }
}

/// The arrival handler's memory of whether it already tore the session down.
pub struct ArrivalGate {
    pub closed: bool,
}

impl ArrivalGate {
    /// A gate for a session that has not delivered yet.
    pub fn new() -> (r: ArrivalGate)
        ensures
            !r.closed,
    {
        ArrivalGate { closed: false }
    }

    /// Decides what one arrival notification does: the first delivers and
    /// tears down, every later one is ignored.
    pub fn on_frame_arrived(&mut self) -> (r: ArrivalAction)
        ensures
            (final(self).closed, r) == arrival_next(old(self).closed),
    {
        if self.closed {
            ArrivalAction::Ignore
        } else {
            self.closed = true;
            ArrivalAction::DeliverAndClose
        }
    }
}

/// However many notifications arrive (one or more, even racing ones that the
/// gate sees one after the other), the session and pool are torn down once.
pub proof fn lemma_teardown_once(n: nat)
    requires
        n >= 1,
    ensures
        teardowns(false, n) == 1,
{
    lemma_no_teardown_after_close((n - 1) as nat);
}

/// Once torn down, no notification tears down again.
pub proof fn lemma_no_teardown_after_close(n: nat)
    ensures
        teardowns(true, n) == 0,
    decreases n,
{
    if n > 0 {
        lemma_no_teardown_after_close((n - 1) as nat);
    }
}

} // verus!
