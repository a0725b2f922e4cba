use skinhelm::cape::CapeRenderState;

#[test]
fn no_loaded_cape_does_not_render() {
    let state = CapeRenderState::new();

    assert!(!state.should_render());
}

#[test]
fn visible_toggle_without_loaded_cape_stays_hidden() {
    let mut state = CapeRenderState::new();

    assert_eq!(state.set_visible(true), "No cape loaded");
    assert!(!state.should_render());
}

#[test]
fn loaded_cape_renders_until_disabled() {
    let mut state = CapeRenderState::new();
    state.mark_loaded();

    assert!(state.should_render());
    assert_eq!(state.set_visible(false), "Cape disabled");
    assert!(!state.should_render());
}

#[test]
fn cleared_cape_stops_rendering_and_ignores_toggles() {
    let mut state = CapeRenderState::default();
    state.mark_loaded();
    assert_eq!(state.set_visible(true), "Cape enabled");
    state.clear();
    assert!(!state.should_render());
    assert_eq!(state.set_visible(true), "No cape loaded");
    assert!(!state.should_render());
}
