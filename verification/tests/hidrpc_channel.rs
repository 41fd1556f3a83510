use rustkvm::hidrpc::{
    dispatch, DispatcherState, HidRpcAction, HidRpcMessage, MacroAction, MacroEvent, MacroPhase,
    MacroPlayer, MacroStep, OutboundKind,
};

fn steps() -> Vec<MacroStep> {
    vec![
        MacroStep { modifier: 2, keys: vec![4], delay: 100 },
        MacroStep { modifier: 0, keys: vec![5, 6], delay: 20 },
    ]
}

#[test]
fn dispatch_routes_each_message() {
    assert!(matches!(dispatch(true, Some(HidRpcMessage::Handshake)), HidRpcAction::Ignore));
    assert!(matches!(dispatch(false, None), HidRpcAction::Ignore));
    assert!(matches!(dispatch(false, Some(HidRpcMessage::Handshake)), HidRpcAction::SendHandshake));
    assert!(matches!(
        dispatch(false, Some(HidRpcMessage::KeyboardReport { modifier: 1, keys: vec![4] })),
        HidRpcAction::KeyboardReport { modifier: 1, ref keys } if keys == &vec![4u8]
    ));
    assert!(matches!(
        dispatch(false, Some(HidRpcMessage::PointerReport { x: 10, y: 20, button: 1 })),
        HidRpcAction::AbsMouseReport { x: 10, y: 20, button: 1 }
    ));
    assert!(matches!(
        dispatch(false, Some(HidRpcMessage::MouseReport { dx: -1, dy: 2, button: 0 })),
        HidRpcAction::RelMouseReport { dx: -1, dy: 2, button: 0 }
    ));
    assert!(matches!(
        dispatch(false, Some(HidRpcMessage::KeypressReport { key: 4, press: true })),
        HidRpcAction::KeypressReport { key: 4, press: true }
    ));
    assert!(matches!(
        dispatch(false, Some(HidRpcMessage::KeyboardMacroReport { is_paste: true, steps: steps() })),
        HidRpcAction::StartMacro { is_paste: true, ref steps } if steps.len() == 2
    ));
    assert!(matches!(dispatch(false, Some(HidRpcMessage::CancelKeyboardMacroReport)), HidRpcAction::CancelMacro));
    assert!(matches!(dispatch(false, Some(HidRpcMessage::KeypressKeepAliveReport)), HidRpcAction::Ignore));
    assert!(matches!(dispatch(false, Some(HidRpcMessage::Unexpected(OutboundKind::WheelReport))), HidRpcAction::Ignore));
    assert!(matches!(dispatch(false, Some(HidRpcMessage::Malformed)), HidRpcAction::Ignore));
}

#[test]
fn dispatcher_state_tracks_channel_and_macro() {
    let mut d = DispatcherState::new();
    assert!(!d.can_send());
    d.install_reliable_channel();
    assert!(d.can_send());
    assert!(!d.start_macro());
    assert!(d.start_macro());
    assert!(d.cancel_macro());
    assert!(!d.cancel_macro());
    d.start_macro();
    assert!(d.clear_reliable_channel());
    assert!(!d.can_send());
    assert!(!d.macro_running);
}

#[test]
fn macro_plays_every_step_in_order() {
    let s = steps();
    let mut p = MacroPlayer::new();
    let mut log = vec![];
    loop {
        match p.step(&s, MacroEvent::Proceed) {
            MacroAction::Report(m, k) => log.push(format!("report {} {:?}", m, k)),
            MacroAction::Sleep(d) => log.push(format!("sleep {}", d)),
            MacroAction::Continue => {}
            MacroAction::Release => log.push("release".to_string()),
            MacroAction::Stop => break,
        }
    }
    assert_eq!(log, vec!["report 2 [4]", "sleep 100", "report 0 [5, 6]", "sleep 20"]);
    assert_eq!(p.phase, MacroPhase::Done);
    assert!(matches!(p.step(&s, MacroEvent::Proceed), MacroAction::Stop));
}

#[test]
fn macro_cancel_and_failure() {
    let s = steps();
    let mut p = MacroPlayer::new();
    assert!(matches!(p.step(&s, MacroEvent::Proceed), MacroAction::Report(2, _)));
    assert!(matches!(p.step(&s, MacroEvent::Proceed), MacroAction::Sleep(100)));
    assert!(matches!(p.step(&s, MacroEvent::Cancelled), MacroAction::Release));
    assert_eq!(p.phase, MacroPhase::Done);
    let mut p = MacroPlayer::new();
    p.step(&s, MacroEvent::Proceed);
    assert!(matches!(p.step(&s, MacroEvent::ReportFailed), MacroAction::Stop));
    let mut p = MacroPlayer::new();
    assert!(matches!(p.step(&s, MacroEvent::Cancelled), MacroAction::Stop));
    let empty: Vec<MacroStep> = vec![];
    let mut p = MacroPlayer::new();
    assert!(matches!(p.step(&empty, MacroEvent::Proceed), MacroAction::Stop));
}
