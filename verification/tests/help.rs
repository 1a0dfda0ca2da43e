use fs_desktop::help::{
    ActiveWindowObserver, AiHelpSource, CapabilityCheck, HelpContent, HelpSidebarState,
    HelpSource, NoHelpSource, SidebarMode, SidebarState,
};

#[test]
fn no_help_source_returns_none() {
    let src = NoHelpSource;
    assert!(matches!(src.resolve("anything"), HelpContent::NoContent));
}

#[test]
fn ai_help_source_returns_none_without_endpoint() {
    // Without an endpoint no request is made and no help comes back.
    let src = AiHelpSource { endpoint: None };
    let request = src.request("browser");
    assert!(request.is_none());
    assert!(matches!(AiHelpSource::answer(None), HelpContent::NoContent));
}

#[test]
fn active_window_observer_maps_id() {
    assert_eq!(ActiveWindowObserver::context_for("fs-browser"), "fs.browser");
    assert_eq!(ActiveWindowObserver::context_for("settings"), "settings");
}

#[test]
fn help_sidebar_state_default_collapsed() {
    let state = HelpSidebarState::new(CapabilityCheck::ai_available_from(false, false));
    assert_eq!(state.state, SidebarState::Collapsed);
}

#[test]
fn ai_request_with_endpoint() {
    let src = AiHelpSource { endpoint: Some("http://localhost:8080".to_string()) };
    let r = src.request("fs.browser").expect("request");
    assert_eq!(r.url, "http://localhost:8080/ai/chat");
    assert_eq!(r.question, "Help me with the context: fs.browser");
    assert_eq!(r.context, "fs.browser");
}

#[test]
fn ai_answers() {
    match AiHelpSource::answer(Some(Ok(Some("Use the tabs.".to_string())))) {
        HelpContent::AiResponse(t) => assert_eq!(t, "Use the tabs."),
        other => panic!("unexpected {other:?}"),
    }
    match AiHelpSource::answer(Some(Ok(None))) {
        HelpContent::AiResponse(t) => assert_eq!(t, "(no response)"),
        other => panic!("unexpected {other:?}"),
    }
    assert!(matches!(AiHelpSource::answer(Some(Err(()))), HelpContent::NoContent));
}

#[test]
fn capability_check_combines_signals() {
    assert!(CapabilityCheck::ai_available_from(true, false));
    assert!(CapabilityCheck::ai_available_from(false, true));
    assert!(!CapabilityCheck::ai_available_from(false, false));
}

struct Fixed(&'static str);

impl HelpSource for Fixed {
    fn resolve(&self, context: &str) -> HelpContent {
        HelpContent::AiResponse(format!("{}:{}", self.0, context))
    }
    fn source_name(&self) -> &'static str {
        "fixed"
    }
}

#[test]
fn sidebar_prefers_local_and_falls_back_to_ai() {
    let mut state = HelpSidebarState::new(true);
    state.on_active_window_changed(None, &NoHelpSource, &Fixed("ai"));
    assert!(matches!(state.content, HelpContent::NoContent));
    state.on_active_window_changed(Some("fs-browser"), &NoHelpSource, &Fixed("ai"));
    match &state.content {
        HelpContent::AiResponse(t) => assert_eq!(t, "ai:fs.browser"),
        other => panic!("unexpected {other:?}"),
    }
    state.on_active_window_changed(Some("fs-browser"), &Fixed("local"), &Fixed("ai"));
    match &state.content {
        HelpContent::AiResponse(t) => assert_eq!(t, "local:fs.browser"),
        other => panic!("unexpected {other:?}"),
    }
    let mut no_ai = HelpSidebarState::new(false);
    no_ai.on_active_window_changed(Some("settings"), &NoHelpSource, &Fixed("ai"));
    assert!(matches!(no_ai.content, HelpContent::NoContent));
    assert_eq!(no_ai.mode, SidebarMode::Auto);
}

#[test]
fn settle_content_rules() {
    let c = HelpSidebarState::settle_content(HelpContent::NoContent, true, HelpContent::AiResponse("a".into()));
    assert!(matches!(c, HelpContent::AiResponse(ref t) if t == "a"));
    let c = HelpSidebarState::settle_content(HelpContent::NoContent, false, HelpContent::AiResponse("a".into()));
    assert!(matches!(c, HelpContent::NoContent));
    let c = HelpSidebarState::settle_content(HelpContent::AiResponse("l".into()), true, HelpContent::NoContent);
    assert!(matches!(c, HelpContent::AiResponse(ref t) if t == "l"));
}

#[test]
fn help_sidebar_on_no_active_window() {
    let mut state = HelpSidebarState::new(CapabilityCheck::ai_available_from(false, false));
    state.on_active_window_changed(None, &NoHelpSource, &NoHelpSource);
    assert!(matches!(state.content, HelpContent::NoContent));
}
