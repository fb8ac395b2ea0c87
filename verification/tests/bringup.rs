use remi_capture::bringup::BringupAction;
use remi_capture::bringup::BringupSequencer;
use remi_capture::bringup::BringupState;
use remi_capture::bringup::run_bringup;

fn expected_order() -> Vec<BringupAction> {
    vec![
        BringupAction::SetCameraNum,
        BringupAction::EnableControlPort,
        BringupAction::SetCameraParams,
        BringupAction::CreateEncoder,
        BringupAction::SetCameraFormat,
        BringupAction::EnableCamera,
        BringupAction::CreatePreview,
        BringupAction::CreatePool,
        BringupAction::EnableEncoder,
        BringupAction::EnablePreview,
        BringupAction::ConnectEncoder,
        BringupAction::ConnectPreview,
        BringupAction::FirstWarmDelay,
        BringupAction::FirstWarmCapture,
        BringupAction::SetManualShutter,
        BringupAction::SetManualAwb,
        BringupAction::SecondWarmDelay,
        BringupAction::SecondWarmCapture,
    ]
}

#[test]
fn bringup_actions_follow_fixed_order() {
    let mut sq = BringupSequencer::new();
    let mut seen: Vec<BringupAction> = Vec::new();
    while let Some(action) = sq.next_action() {
        seen.push(action);
        sq.record_success();
    }
    assert_eq!(seen, expected_order());
}

#[test]
fn encoder_created_strictly_before_format_set() {
    let order = expected_order();
    let enc = order
        .iter()
        .position(|a| *a == BringupAction::CreateEncoder)
        .unwrap();
    let fmt = order
        .iter()
        .position(|a| *a == BringupAction::SetCameraFormat)
        .unwrap();
    assert!(enc < fmt);
}

#[test]
fn bringup_state_walks_from_closed_to_ready() {
    let mut sq = BringupSequencer::new();
    assert_eq!(sq.state(), BringupState::Closed);
    assert!(!sq.is_ready());
    let expected = vec![
        BringupState::Numbered,
        BringupState::ControlEnabled,
        BringupState::ParamsSet,
        BringupState::EncoderCreated,
        BringupState::FormatSet,
        BringupState::Enabled,
        BringupState::PreviewCreated,
        BringupState::PoolCreated,
        BringupState::EncoderEnabled,
        BringupState::PreviewEnabled,
        BringupState::EncoderConnected,
        BringupState::PreviewConnected,
        BringupState::WarmDelayOne,
        BringupState::WarmCaptureOne,
        BringupState::ManualShutterSet,
        BringupState::ManualAwbSet,
        BringupState::WarmDelayTwo,
        BringupState::Ready,
    ];
    for st in expected {
        sq.record_success();
        assert_eq!(sq.state(), st);
    }
    assert!(sq.is_ready());
    assert_eq!(sq.next_action(), None);
}

#[test]
fn run_bringup_succeeds_on_all_true() {
    let outcomes = vec![true; 18];
    let sq = run_bringup(&outcomes).unwrap();
    assert!(sq.is_ready());
    assert_eq!(sq.state(), BringupState::Ready);
}

#[test]
fn run_bringup_reports_first_failing_step() {
    let mut outcomes = vec![true; 18];
    outcomes[4] = false;
    let err = run_bringup(&outcomes).unwrap_err();
    assert_eq!(err.step, 4);
    assert_eq!(err.action(), BringupAction::SetCameraFormat);
}

#[test]
fn format_set_failure_leaves_bringup_unready() {
    // The format application reports failure: bring-up aborts there, the
    // handle never reaches ready, and no timed capture is attempted.
    let mut outcomes = vec![true; 18];
    outcomes[4] = false;
    assert!(run_bringup(&outcomes).is_err());
    let mut sq = BringupSequencer::new();
    for _ in 0..4 {
        sq.record_success();
    }
    assert!(!sq.is_ready());
    assert_eq!(sq.state(), BringupState::EncoderCreated);
}

#[test]
fn run_bringup_fails_when_outcomes_run_out() {
    let outcomes = vec![true; 10];
    let err = run_bringup(&outcomes).unwrap_err();
    assert_eq!(err.step, 10);
}
