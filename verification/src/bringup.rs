use vstd::prelude::*;

verus! {

/// One configuration call of the ordered bring-up sequence.
///
/// Each action is a single call against the camera handle; the sequence is
/// strict, linear and never retried.
#[derive(Clone, Copy, PartialEq, Eq, Structural, Debug)]
pub enum BringupAction {
    SetCameraNum,
    EnableControlPort,
    SetCameraParams,
    CreateEncoder,
    SetCameraFormat,
    EnableCamera,
    CreatePreview,
    CreatePool,
    EnableEncoder,
    EnablePreview,
    ConnectEncoder,
    ConnectPreview,
    FirstWarmDelay,
    FirstWarmCapture,
    SetManualShutter,
    SetManualAwb,
    SecondWarmDelay,
    SecondWarmCapture,
}

/// The state the camera handle is in after a prefix of the bring-up
/// sequence has succeeded.
#[derive(Clone, Copy, PartialEq, Eq, Structural, Debug)]
pub enum BringupState {
    Closed,
    Numbered,
    ControlEnabled,
    ParamsSet,
    EncoderCreated,
    FormatSet,
    Enabled,
    PreviewCreated,
    PoolCreated,
    EncoderEnabled,
    PreviewEnabled,
    EncoderConnected,
    PreviewConnected,
    WarmDelayOne,
    WarmCaptureOne,
    ManualShutterSet,
    ManualAwbSet,
    WarmDelayTwo,
    WarmCaptureTwo,
    Ready,
}

/// How many configuration calls the bring-up sequence makes.
pub const BRINGUP_STEP_COUNT: u8 = 18;

/// The fixed bring-up order: the action taken as step `i`, for `0 <= i < 18`.
pub open spec fn bringup_action_at(i: int) -> BringupAction {
    if i == 0 {
        BringupAction::SetCameraNum
    } else if i == 1 {
        BringupAction::EnableControlPort
    } else if i == 2 {
        BringupAction::SetCameraParams
    } else if i == 3 {
        BringupAction::CreateEncoder
    } else if i == 4 {
        BringupAction::SetCameraFormat
    } else if i == 5 {
        BringupAction::EnableCamera
    } else if i == 6 {
        BringupAction::CreatePreview
    } else if i == 7 {
        BringupAction::CreatePool
    } else if i == 8 {
        BringupAction::EnableEncoder
    } else if i == 9 {
        BringupAction::EnablePreview
    } else if i == 10 {
        BringupAction::ConnectEncoder
    } else if i == 11 {
        BringupAction::ConnectPreview
    } else if i == 12 {
        BringupAction::FirstWarmDelay
    } else if i == 13 {
        BringupAction::FirstWarmCapture
    } else if i == 14 {
        BringupAction::SetManualShutter
    } else if i == 15 {
        BringupAction::SetManualAwb
    } else if i == 16 {
        BringupAction::SecondWarmDelay
    } else {
        BringupAction::SecondWarmCapture
    }
}

/// The state reached once the first `i` steps have succeeded.
pub open spec fn bringup_state_after(i: int) -> BringupState {
    if i <= 0 {
        BringupState::Closed
    } else if i == 1 {
        BringupState::Numbered
    } else if i == 2 {
        BringupState::ControlEnabled
    } else if i == 3 {
        BringupState::ParamsSet
    } else if i == 4 {
        BringupState::EncoderCreated
    } else if i == 5 {
        BringupState::FormatSet
    } else if i == 6 {
        BringupState::Enabled
    } else if i == 7 {
        BringupState::PreviewCreated
    } else if i == 8 {
        BringupState::PoolCreated
    } else if i == 9 {
        BringupState::EncoderEnabled
    } else if i == 10 {
        BringupState::PreviewEnabled
    } else if i == 11 {
        BringupState::EncoderConnected
    } else if i == 12 {
        BringupState::PreviewConnected
    } else if i == 13 {
        BringupState::WarmDelayOne
    } else if i == 14 {
        BringupState::WarmCaptureOne
    } else if i == 15 {
        BringupState::ManualShutterSet
    } else if i == 16 {
        BringupState::ManualAwbSet
    } else if i == 17 {
        BringupState::WarmDelayTwo
    } else {
        BringupState::Ready
    }
}

/// A failed bring-up: `step` is the index of the configuration call that
/// failed (or, when driven from a recorded outcome list, the index at which
/// no outcome was delivered). The whole session aborts before any capture.
#[derive(Clone, Copy, PartialEq, Eq, Structural, Debug)]
pub struct BringupError {
    pub step: u8,
}

impl BringupError {
    /// The configuration call that failed, when the failing step is one of
    /// the sequence's own.
    pub fn action(&self) -> (a: BringupAction)
        requires
            self.step < BRINGUP_STEP_COUNT,
        ensures
            a == bringup_action_at(self.step as int),
    {
        let seq = BringupSequencer { steps_done: self.step };
        match seq.next_action() {
            Some(a) => a,
            None => BringupAction::SetCameraNum,
        }
    }
}

/// Drives the camera handle from closed to streaming-ready through the
/// strict linear sequence of `bringup_action_at`.
///
/// The sequencer only dictates order; the caller performs each offered
/// action against the hardware and records its success, or aborts.
#[derive(Clone, Copy, PartialEq, Eq, Structural, Debug)]
pub struct BringupSequencer {
    pub steps_done: u8,
}

impl BringupSequencer {
    /// The sequencer is at a step of the sequence or just past it.
    pub open spec fn wf(self) -> bool {
        self.steps_done <= BRINGUP_STEP_COUNT
    }

    pub fn new() -> (s: Self)
        ensures
            s.steps_done == 0,
            s.wf(),
    {
        BringupSequencer { steps_done: 0 }
    }

    /// Whether every configuration step has succeeded: no further
    /// configuration call occurs afterward.
    pub fn is_ready(&self) -> (r: bool)
        ensures
            r <==> self.steps_done >= BRINGUP_STEP_COUNT,
    {
        self.steps_done >= BRINGUP_STEP_COUNT
    }

    /// The state reached by the steps recorded so far.
    pub fn state(&self) -> (st: BringupState)
        ensures
            st == bringup_state_after(self.steps_done as int),
    {
        match self.steps_done {
            0 => BringupState::Closed,
            1 => BringupState::Numbered,
            2 => BringupState::ControlEnabled,
            3 => BringupState::ParamsSet,
            4 => BringupState::EncoderCreated,
            5 => BringupState::FormatSet,
            6 => BringupState::Enabled,
            7 => BringupState::PreviewCreated,
            8 => BringupState::PoolCreated,
            9 => BringupState::EncoderEnabled,
            10 => BringupState::PreviewEnabled,
            11 => BringupState::EncoderConnected,
            12 => BringupState::PreviewConnected,
            13 => BringupState::WarmDelayOne,
            14 => BringupState::WarmCaptureOne,
            15 => BringupState::ManualShutterSet,
            16 => BringupState::ManualAwbSet,
            17 => BringupState::WarmDelayTwo,
            _ => BringupState::Ready,
        }
    }

    /// The next configuration call to make, or `None` once ready.
    pub fn next_action(&self) -> (r: Option<BringupAction>)
        ensures
            self.steps_done < BRINGUP_STEP_COUNT ==> r == Some(
                bringup_action_at(self.steps_done as int),
            ),
            self.steps_done >= BRINGUP_STEP_COUNT ==> r is None,
    {
        match self.steps_done {
            0 => Some(BringupAction::SetCameraNum),
            1 => Some(BringupAction::EnableControlPort),
            2 => Some(BringupAction::SetCameraParams),
            3 => Some(BringupAction::CreateEncoder),
            4 => Some(BringupAction::SetCameraFormat),
            5 => Some(BringupAction::EnableCamera),
            6 => Some(BringupAction::CreatePreview),
            7 => Some(BringupAction::CreatePool),
            8 => Some(BringupAction::EnableEncoder),
            9 => Some(BringupAction::EnablePreview),
            10 => Some(BringupAction::ConnectEncoder),
            11 => Some(BringupAction::ConnectPreview),
            12 => Some(BringupAction::FirstWarmDelay),
            13 => Some(BringupAction::FirstWarmCapture),
            14 => Some(BringupAction::SetManualShutter),
            15 => Some(BringupAction::SetManualAwb),
            16 => Some(BringupAction::SecondWarmDelay),
            17 => Some(BringupAction::SecondWarmCapture),
            _ => None,
        }
    }

    /// Record that the offered configuration call succeeded.
    pub fn record_success(&mut self)
        requires
            old(self).steps_done < BRINGUP_STEP_COUNT,
        ensures
            final(self).steps_done == old(self).steps_done + 1,
    {
        self.steps_done = self.steps_done + 1;
    }
}

/// The first step of the sequence that `outcomes` does not carry through:
/// the least `i < 18` with no outcome or a failing one, or 18 when the
/// whole sequence succeeds.
pub open spec fn first_bringup_failure(outcomes: Seq<bool>) -> int {
    first_bringup_failure_from(outcomes, 0)
}

pub open spec fn first_bringup_failure_from(outcomes: Seq<bool>, i: int) -> int
    decreases BRINGUP_STEP_COUNT - i,
{
    if i < 0 || i >= BRINGUP_STEP_COUNT {
        BRINGUP_STEP_COUNT as int
    } else if i >= outcomes.len() || !outcomes[i] {
        i
    } else {
        first_bringup_failure_from(outcomes, i + 1)
    }
}

/// Run the whole bring-up against a recorded list of per-call outcomes
/// (`outcomes[i]` is whether configuration call `i` succeeded).
///
/// Returns a ready sequencer exactly when the first 18 outcomes are all
/// delivered and true; otherwise the error names the first failing step and
/// no later call is consulted.
pub fn run_bringup(outcomes: &Vec<bool>) -> (r: Result<BringupSequencer, BringupError>)
    ensures
        r is Ok <==> first_bringup_failure(outcomes@) == BRINGUP_STEP_COUNT,
        r is Ok ==> r->Ok_0.steps_done == BRINGUP_STEP_COUNT,
        r is Err ==> r->Err_0.step as int == first_bringup_failure(outcomes@),
{
    let mut sq = BringupSequencer::new();
    loop
        invariant
            sq.wf(),
            first_bringup_failure_from(outcomes@, sq.steps_done as int) == first_bringup_failure(
                outcomes@,
            ),
            forall|j: int|
                0 <= j < sq.steps_done ==> j < outcomes@.len() && outcomes@[j],
        decreases BRINGUP_STEP_COUNT - sq.steps_done,
    {
        if sq.is_ready() {
            return Ok(sq);
        }
        let i = sq.steps_done as usize;
        if i >= outcomes.len() || !outcomes[i] {
            return Err(BringupError { step: sq.steps_done });
        }
        sq.record_success();
    }
}

/// The bring-up order is fixed: every configuration call occurs exactly once,
/// and the encoder is created strictly before the image format is applied.
pub proof fn lemma_bringup_order_fixed()
    ensures
        forall|i: int, j: int|
            0 <= i < j < BRINGUP_STEP_COUNT ==> bringup_action_at(i) != bringup_action_at(j),
        forall|i: int, j: int|
            0 <= i < BRINGUP_STEP_COUNT && 0 <= j < BRINGUP_STEP_COUNT && bringup_action_at(i)
                == BringupAction::CreateEncoder && bringup_action_at(j)
                == BringupAction::SetCameraFormat ==> i < j,
{
}

} // verus!
