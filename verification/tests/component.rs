use fs_ai::component::{AiComponent, ButtonStyle, LayoutElement, SlotKind, TextSize};

fn render_with(available: Option<&str>, busy: Option<&str>) -> Vec<LayoutElement> {
    let c = AiComponent::new();
    c.render(AiComponent::flag_enabled(available), AiComponent::flag_enabled(busy))
}

#[test]
fn component_id() {
    let c = AiComponent::new();
    assert_eq!(c.component_id(), "ai-chat");
}

#[test]
fn slot_preference_is_sidebar() {
    let c = AiComponent::new();
    assert_eq!(c.slot_preference(), SlotKind::Sidebar);
}

#[test]
fn render_unavailable_when_no_capability() {
    let els = render_with(None, None);
    assert_eq!(els.len(), 1);
    assert!(matches!(&els[0], LayoutElement::Text { content, .. }
        if content.contains("unavailable")));
}

#[test]
fn render_available_shows_input() {
    let els = render_with(Some("true"), Some("false"));
    let has_input = els.iter().any(|e| matches!(e, LayoutElement::TextInput { .. }));
    assert!(has_input);
}

#[test]
fn render_busy_shows_spinner_not_input() {
    let els = render_with(Some("true"), Some("true"));
    let has_spinner = els.iter().any(|e| matches!(e, LayoutElement::Spinner));
    assert!(has_spinner);
    let has_input = els.iter().any(|e| matches!(e, LayoutElement::TextInput { .. }));
    assert!(!has_input);
}

#[test]
fn render_available_shows_conversation_list() {
    let els = render_with(Some("true"), Some("false"));
    let has_list = els.iter().any(|e| matches!(e, LayoutElement::List { .. }));
    assert!(has_list);
}

#[test]
fn flag_needs_exactly_true() {
    assert!(AiComponent::flag_enabled(Some("true")));
    assert!(!AiComponent::flag_enabled(Some("false")));
    assert!(!AiComponent::flag_enabled(Some("TRUE")));
    assert!(!AiComponent::flag_enabled(Some("")));
    assert!(!AiComponent::flag_enabled(None));
}

#[test]
fn unavailable_ignores_busy() {
    let els = render_with(Some("false"), Some("true"));
    assert_eq!(els.len(), 1);
    match &els[0] {
        LayoutElement::Text { content, size, color } => {
            assert_eq!(content, "ai-chat-capability-unavailable");
            assert_eq!(*size, TextSize::Body);
            assert!(color.is_none());
        }
        other => panic!("unexpected element {other:?}"),
    }
}

#[test]
fn idle_layout_in_full() {
    let els = render_with(Some("true"), None);
    assert_eq!(els.len(), 6);
    assert!(matches!(&els[0], LayoutElement::Text { content, size: TextSize::Label, color: None }
        if content == "ai-title"));
    assert!(matches!(&els[1], LayoutElement::Separator { label_key: None }));
    match &els[2] {
        LayoutElement::List { items, scrollable } => {
            assert!(*scrollable);
            assert_eq!(items.len(), 1);
            match &items[0] {
                LayoutElement::Row { children, gap } => {
                    assert_eq!(*gap, 6);
                    assert!(matches!(&children[0], LayoutElement::Icon { name, size: 16 }
                        if name == "fs:icons/ai"));
                    assert!(matches!(&children[1], LayoutElement::Text { content, .. }
                        if content == "ai-chat-welcome"));
                }
                other => panic!("unexpected row {other:?}"),
            }
        }
        other => panic!("unexpected element {other:?}"),
    }
    assert!(matches!(&els[3], LayoutElement::Separator { label_key: None }));
    assert!(matches!(&els[4], LayoutElement::TextInput { placeholder_key, value, on_change_action }
        if placeholder_key == "ai-chat-input-placeholder" && value.is_empty()
            && on_change_action == "ai.chat.input_changed"));
    assert!(matches!(&els[5], LayoutElement::Button { label_key, action, style: ButtonStyle::Primary }
        if label_key == "ai-chat-send" && action == "ai.chat.send"));
}

#[test]
fn busy_layout_has_five_elements() {
    let els = render_with(Some("true"), Some("true"));
    assert_eq!(els.len(), 5);
    assert!(matches!(&els[4], LayoutElement::Spinner));
}

#[test]
fn component_metadata() {
    let c = AiComponent::default();
    assert_eq!(c.component_id(), "ai-chat");
    assert_eq!(c.name_key(), "ai-title");
    assert_eq!(c.description_key(), "ai-chat-desc");
    assert_eq!(c.min_width(), 220);
}

#[test]
fn same_flags_same_layout() {
    let c = AiComponent::new();
    for (available, busy) in [(false, false), (false, true), (true, false), (true, true)] {
        let a = format!("{:?}", c.render(available, busy));
        let b = format!("{:?}", AiComponent::default().render(available, busy));
        assert_eq!(a, b);
    }
}
