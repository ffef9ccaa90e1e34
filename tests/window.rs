use iq_calc::window::{
    dispatch, Action, SetupStage, WindowState, ID_BUTTON, ID_EDIT, WM_COMMAND, WM_CREATE,
    WM_DESTROY, WM_PAINT,
};

#[test]
fn dispatch_routes_known_messages() {
    assert_eq!(dispatch(WM_CREATE, 0), Action::SetUpControls);
    assert_eq!(dispatch(WM_PAINT, 0), Action::Repaint);
    assert_eq!(dispatch(WM_DESTROY, 0), Action::Quit);
}

#[test]
fn dispatch_button_shows_result() {
    assert_eq!(dispatch(WM_COMMAND, ID_BUTTON as usize), Action::ShowResult);
    // The notification code in the high half does not matter.
    assert_eq!(dispatch(WM_COMMAND, 0x0001_0000 | ID_BUTTON as usize), Action::ShowResult);
}

#[test]
fn dispatch_other_control_is_ignored() {
    assert_eq!(dispatch(WM_COMMAND, ID_EDIT as usize), Action::Ignore);
    assert_eq!(dispatch(WM_COMMAND, 0), Action::Ignore);
    assert_eq!(dispatch(WM_COMMAND, 0x0300_002A), Action::Ignore);
    assert_eq!(dispatch(WM_COMMAND, 0x0001_002C), Action::Ignore);
}

#[test]
fn dispatch_destroy_quits_whatever_the_parameter() {
    for w in [0usize, 1, ID_BUTTON as usize, usize::MAX] {
        assert_eq!(dispatch(WM_DESTROY, w), Action::Quit);
    }
}

#[test]
fn dispatch_unknown_message_is_forwarded() {
    for m in [0u32, 0x0003, 0x0010, 0x0100, 0x0200, 0x0112, u32::MAX] {
        assert_eq!(dispatch(m, ID_BUTTON as usize), Action::Forward);
    }
}

#[test]
fn dispatch_leaves_state_alone() {
    let mut st = WindowState::new();
    st.advance(7, true);
    st.advance(8, true);
    let before = st;
    let _ = dispatch(0x0200, 0);
    let _ = dispatch(WM_COMMAND, ID_EDIT as usize);
    assert_eq!(st, before);
}

#[test]
fn setup_all_steps_succeed() {
    let mut st = WindowState::new();
    assert!(st.setting_up());
    assert_eq!(st.stage, SetupStage::Font);
    st.advance(11, true);
    assert_eq!(st.stage, SetupStage::Edit);
    st.advance(22, true);
    assert_eq!(st.stage, SetupStage::FocusEdit);
    st.advance(0, true);
    assert_eq!(st.stage, SetupStage::Button);
    st.advance(33, true);
    assert_eq!(st.stage, SetupStage::Done);
    assert!(!st.setting_up());
    assert_eq!((st.font, st.edit, st.button), (11, 22, 33));
}

#[test]
fn setup_keeps_null_font() {
    let mut st = WindowState::new();
    st.advance(0, false);
    assert_eq!(st.stage, SetupStage::Edit);
    assert_eq!(st.font, 0);
}

#[test]
fn setup_edit_failure_stops() {
    let mut st = WindowState::new();
    st.advance(11, true);
    st.advance(0, false);
    assert_eq!(st.stage, SetupStage::Stopped);
    assert!(!st.setting_up());
    assert_eq!((st.font, st.edit, st.button), (11, 0, 0));
}

#[test]
fn setup_focus_failure_keeps_edit_and_stops() {
    let mut st = WindowState::new();
    st.advance(11, true);
    st.advance(22, true);
    st.advance(0, false);
    assert_eq!(st.stage, SetupStage::Stopped);
    assert_eq!((st.font, st.edit, st.button), (11, 22, 0));
}

#[test]
fn setup_button_failure_stops() {
    let mut st = WindowState::new();
    st.advance(11, true);
    st.advance(22, true);
    st.advance(0, true);
    st.advance(0, false);
    assert_eq!(st.stage, SetupStage::Stopped);
    assert_eq!((st.font, st.edit, st.button), (11, 22, 0));
}
