//! AiComponent: the chat panel of the AI assistant, as a layout tree.
//!
//! The panel shows a notice when the `ai.chat` capability is missing;
//! otherwise a title, the conversation history and either an input area or,
//! while the engine works, a spinner.

use vstd::prelude::*;

use crate::keys;
use crate::model::opt_view;

verus! {

/// Text size of a text element.
#[derive(Debug, Clone, Copy, PartialEq, Eq, Structural)]
pub enum TextSize {
    Body,
    Label,
}

/// Visual style of a button.
#[derive(Debug, Clone, Copy, PartialEq, Eq, Structural)]
pub enum ButtonStyle {
    Primary,
}

/// Where the panel prefers to be placed.
#[derive(Debug, Clone, Copy, PartialEq, Eq, Structural)]
pub enum SlotKind {
    Sidebar,
}

/// One node of the rendered layout.
#[allow(inconsistent_fields)]
#[derive(Debug)]
pub enum LayoutElement {
    Text { content: String, size: TextSize, color: Option<String> },
    Separator { label_key: Option<String> },
    List { items: Vec<LayoutElement>, scrollable: bool },
    Row { children: Vec<LayoutElement>, gap: u32 },
    Icon { name: String, size: u32 },
    Spinner,
    TextInput { placeholder_key: String, value: String, on_change_action: String },
    Button { label_key: String, action: String, style: ButtonStyle },
}

/// Mathematical view of a layout node: every string as its characters.
#[allow(inconsistent_fields)]
pub enum LayoutView {
    Text { content: Seq<char>, size: TextSize, color: Option<Seq<char>> },
    Separator { label_key: Option<Seq<char>> },
    List { items: Seq<LayoutView>, scrollable: bool },
    Row { children: Seq<LayoutView>, gap: u32 },
    Icon { name: Seq<char>, size: u32 },
    Spinner,
    TextInput { placeholder_key: Seq<char>, value: Seq<char>, on_change_action: Seq<char> },
    Button { label_key: Seq<char>, action: Seq<char>, style: ButtonStyle },
}

/// The view of one layout node.
pub open spec fn element_view(e: LayoutElement) -> LayoutView
    decreases e,
{
    match e {
        LayoutElement::Text { content, size, color } => LayoutView::Text {
            content: content@,
            size,
            color: opt_view(color),
        },
        LayoutElement::Separator { label_key } => LayoutView::Separator {
            label_key: opt_view(label_key),
        },
        LayoutElement::List { items, scrollable } => LayoutView::List {
            items: element_views(items@),
            scrollable,
        },
        LayoutElement::Row { children, gap } => LayoutView::Row {
            children: element_views(children@),
            gap,
        },
        LayoutElement::Icon { name, size } => LayoutView::Icon { name: name@, size },
        LayoutElement::Spinner => LayoutView::Spinner,
        LayoutElement::TextInput { placeholder_key, value, on_change_action } =>
            LayoutView::TextInput {
            placeholder_key: placeholder_key@,
            value: value@,
            on_change_action: on_change_action@,
        },
        LayoutElement::Button { label_key, action, style } => LayoutView::Button {
            label_key: label_key@,
            action: action@,
            style,
        },
    }
}

/// The views of a sequence of layout nodes.
pub open spec fn element_views(s: Seq<LayoutElement>) -> Seq<LayoutView>
    decreases s,
{
    if s.len() == 0 {
        Seq::empty()
    } else {
        element_views(s.drop_last()).push(element_view(s.last()))
    }
}

impl View for LayoutElement {
    type V = LayoutView;

    open spec fn view(&self) -> LayoutView {
        element_view(*self)
    }
}

/// Pushing a node appends its view.
pub proof fn lemma_views_push(s: Seq<LayoutElement>, e: LayoutElement)
    ensures
        element_views(s.push(e)) == element_views(s).push(element_view(e)),
{
    assert(s.push(e).drop_last() =~= s);
}

/// An uncoloured text node.
pub open spec fn text_view(content: Seq<char>, size: TextSize) -> LayoutView {
    LayoutView::Text { content, size, color: None }
}

/// The icon shown beside a turn.
pub open spec fn role_icon(from_user: bool) -> Seq<char> {
    if from_user {
        "fs:icons/user"@
    } else {
        "fs:icons/ai"@
    }
}

/// The history row of a turn: role icon, then the text.
pub open spec fn entry_row(from_user: bool, text: Seq<char>) -> LayoutView {
    LayoutView::Row {
        children: seq![
            LayoutView::Icon { name: role_icon(from_user), size: 16 },
            text_view(text, TextSize::Body),
        ],
        gap: 6,
    }
}

/// The layout of the panel, given whether the `ai.chat` capability is
/// available and whether the engine is busy.
pub open spec fn chat_layout(available: bool, busy: bool) -> Seq<LayoutView> {
    if !available {
        seq![text_view("ai-chat-capability-unavailable"@, TextSize::Body)]
    } else {
        let head = seq![
            text_view(keys::TITLE@, TextSize::Label),
            LayoutView::Separator { label_key: None },
            LayoutView::List {
                items: seq![entry_row(false, "ai-chat-welcome"@)],
                scrollable: true,
            },
            LayoutView::Separator { label_key: None },
        ];
        if busy {
            head.push(LayoutView::Spinner)
        } else {
            head.push(
                LayoutView::TextInput {
                    placeholder_key: "ai-chat-input-placeholder"@,
                    value: Seq::empty(),
                    on_change_action: "ai.chat.input_changed"@,
                },
            ).push(
                LayoutView::Button {
                    label_key: "ai-chat-send"@,
                    action: "ai.chat.send"@,
                    style: ButtonStyle::Primary,
                },
            )
        }
    }
}

/// A single conversation turn shown in the component.
struct ConversationEntry {
    /// `true` = user, `false` = assistant.
    from_user: bool,
    text: String,
}

impl ConversationEntry {
    fn row(&self) -> (e: LayoutElement)
        ensures
            e@ == entry_row(self.from_user, self.text@),
    {
        let icon_name = if self.from_user {
            "fs:icons/user"
        } else {
            "fs:icons/ai"
        };
        let mut children: Vec<LayoutElement> = Vec::new();
        children.push(LayoutElement::Icon { name: icon_name.to_owned(), size: 16 });
        proof {
            lemma_views_push(Seq::empty(), children@[0]);
            assert(Seq::<LayoutElement>::empty().push(children@[0]) =~= children@);
        }
        let ghost first = children@;
        children.push(
            LayoutElement::Text { content: self.text.clone(), size: TextSize::Body, color: None },
        );
        proof {
            lemma_views_push(first, children@[1]);
            assert(first.push(children@[1]) =~= children@);
            assert(element_views(children@) =~= seq![
                LayoutView::Icon { name: role_icon(self.from_user), size: 16 },
                text_view(self.text@, TextSize::Body),
            ]);
        }
        LayoutElement::Row { children, gap: 6 }
    }
}

/// Whether a configuration value switches a flag on: it must be `"true"`.
pub open spec fn flag_on(value: Option<Seq<char>>) -> bool {
    value == Some("true"@)
}

/// Chat interface for the AI assistant.
pub struct AiComponent {
    id: &'static str,
}

impl Default for AiComponent {
    fn default() -> (c: Self)
        ensures
            c.id_text() == "ai-chat"@,
    {
        Self::new()
    }
}

impl AiComponent {
    /// The component's id.
    pub closed spec fn id_text(&self) -> Seq<char> {
        self.id@
    }

    /// Create a new AI chat component.
    pub fn new() -> (c: Self)
        ensures
            c.id_text() == "ai-chat"@,
    {
        AiComponent { id: "ai-chat" }
    }

    /// The component's id.
    pub fn component_id(&self) -> (r: &str)
        ensures
            r@ == self.id_text(),
    {
        self.id
    }

    /// Translation key of the component's name.
    pub fn name_key(&self) -> (r: &'static str)
        ensures
            r@ == keys::TITLE@,
    {
        keys::TITLE
    }

    /// Translation key of the component's description.
    pub fn description_key(&self) -> (r: &'static str)
        ensures
            r@ == "ai-chat-desc"@,
    {
        "ai-chat-desc"
    }

    /// The panel lives in the sidebar.
    pub fn slot_preference(&self) -> (r: SlotKind)
        ensures
            r == SlotKind::Sidebar,
    {
        SlotKind::Sidebar
    }

    /// Minimum width in pixels.
    pub fn min_width(&self) -> (r: u32)
        ensures
            r == 220,
    {
        220
    }

    /// Whether a configuration value (`None` when the key is missing) is `"true"`.
    pub fn flag_enabled(value: Option<&str>) -> (r: bool)
        ensures
            r == flag_on(
                match value {
                    Some(v) => Some(v@),
                    None => None,
                },
            ),
    {
        match value {
            Some(v) => v.to_owned() == "true".to_owned(),
            None => false,
        }
    }

    fn capability_unavailable() -> (els: Vec<LayoutElement>)
        ensures
            element_views(els@) == chat_layout(false, false),
    {
        let mut els: Vec<LayoutElement> = Vec::new();
        els.push(
            LayoutElement::Text {
                content: "ai-chat-capability-unavailable".to_owned(),
                size: TextSize::Body,
                color: None,
            },
        );
        proof {
            lemma_views_push(Seq::empty(), els@[0]);
            assert(Seq::<LayoutElement>::empty().push(els@[0]) =~= els@);
            assert(element_views(els@) =~= chat_layout(false, false));
        }
        els
    }

    fn stub_conversation() -> (c: Vec<ConversationEntry>)
        ensures
            c@.len() == 1,
            !c@[0].from_user,
            c@[0].text@ == "ai-chat-welcome"@,
    {
        // Placeholder conversation until live data is wired in.
        let mut c: Vec<ConversationEntry> = Vec::new();
        c.push(ConversationEntry { from_user: false, text: "ai-chat-welcome".to_owned() });
        c
    }

    /// The panel's layout: `available` tells whether the `ai.chat`
    /// capability is registered, `busy` whether the engine is processing.
    pub fn render(&self, available: bool, busy: bool) -> (els: Vec<LayoutElement>)
        ensures
            element_views(els@) == chat_layout(available, busy),
    {
        if !available {
            return Self::capability_unavailable();
        }
        let conversation = Self::stub_conversation();

        // Conversation history
        let mut history_items: Vec<LayoutElement> = Vec::new();
        let n = conversation.len();
        for i in 0..n
            invariant
                n == conversation@.len(),
                element_views(history_items@) == Seq::new(
                    i as nat,
                    |j: int| entry_row(conversation@[j].from_user, conversation@[j].text@),
                ),
        {
            let row = conversation[i].row();
            proof {
                lemma_views_push(history_items@, row);
            }
            history_items.push(row);
            assert(element_views(history_items@) =~= Seq::new(
                (i + 1) as nat,
                |j: int| entry_row(conversation@[j].from_user, conversation@[j].text@),
            ));
        }
        assert(element_views(history_items@) =~= seq![entry_row(false, "ai-chat-welcome"@)]);

        let mut elements: Vec<LayoutElement> = Vec::new();
        let ghost expected = chat_layout(true, busy);
        let title = LayoutElement::Text {
            content: keys::TITLE.to_owned(),
            size: TextSize::Label,
            color: None,
        };
        proof {
            lemma_views_push(elements@, title);
        }
        elements.push(title);
        let sep = LayoutElement::Separator { label_key: None };
        proof {
            lemma_views_push(elements@, sep);
        }
        elements.push(sep);
        let list = LayoutElement::List { items: history_items, scrollable: true };
        proof {
            lemma_views_push(elements@, list);
        }
        elements.push(list);
        let sep2 = LayoutElement::Separator { label_key: None };
        proof {
            lemma_views_push(elements@, sep2);
        }
        elements.push(sep2);
        assert(element_views(elements@) =~= expected.take(4));

        // Input area
        if busy {
            let spinner = LayoutElement::Spinner;
            proof {
                lemma_views_push(elements@, spinner);
            }
            elements.push(spinner);
        } else {
            let input = LayoutElement::TextInput {
                placeholder_key: "ai-chat-input-placeholder".to_owned(),
                value: String::new(),
                on_change_action: "ai.chat.input_changed".to_owned(),
            };
            proof {
                lemma_views_push(elements@, input);
            }
            elements.push(input);
            let button = LayoutElement::Button {
                label_key: "ai-chat-send".to_owned(),
                action: "ai.chat.send".to_owned(),
                style: ButtonStyle::Primary,
            };
            proof {
                lemma_views_push(elements@, button);
            }
            elements.push(button);
        }
        assert(element_views(elements@) =~= expected);
        elements
    }
}

/// The views of a sequence are the views of its nodes, one for one.
pub proof fn lemma_views_index(s: Seq<LayoutElement>)
    ensures
        element_views(s).len() == s.len(),
        forall|i: int| 0 <= i < s.len() ==> #[trigger] element_views(s)[i] == element_view(s[i]),
    decreases s.len(),
{
    if s.len() > 0 {
        lemma_views_index(s.drop_last());
    }
}

/// The panel's layout depends on the two flags alone: two renderings with
/// the same flags are equal, node for node.
pub proof fn law_layout_depends_only_on_flags(
    a: Seq<LayoutElement>,
    b: Seq<LayoutElement>,
    available: bool,
    busy: bool,
)
    requires
        element_views(a) == chat_layout(available, busy),
        element_views(b) == chat_layout(available, busy),
    ensures
        element_views(a) == element_views(b),
        a.len() == b.len(),
        forall|i: int| 0 <= i < a.len() ==> #[trigger] a[i]@ == b[i]@,
{
    lemma_views_index(a);
    lemma_views_index(b);
    assert(a.len() == b.len());
    assert forall|i: int| 0 <= i < a.len() implies #[trigger] a[i]@ == b[i]@ by {
        assert(element_views(a)[i] == element_view(a[i]));
        assert(element_views(b)[i] == element_view(b[i]));
    }
}

/// The busy flag changes only the input area: a busy panel and an idle one
/// begin with the same four nodes (title, separator, history list,
/// separator); the history list holds one row per conversation entry, the
/// assistant's welcome message; only what follows differs.
pub proof fn law_busy_only_changes_input_area(busy_els: Seq<LayoutElement>, idle_els: Seq<
    LayoutElement,
>)
    requires
        element_views(busy_els) == chat_layout(true, true),
        element_views(idle_els) == chat_layout(true, false),
    ensures
        busy_els.len() >= 4 && idle_els.len() >= 4,
        forall|i: int| 0 <= i < 4 ==> #[trigger] busy_els[i]@ == idle_els[i]@,
        busy_els[2] matches LayoutElement::List { items, scrollable } && scrollable
            && items@.len() == 1 && items@[0]@ == (LayoutView::Row {
            children: seq![
                LayoutView::Icon { name: "fs:icons/ai"@, size: 16 },
                LayoutView::Text {
                    content: "ai-chat-welcome"@,
                    size: TextSize::Body,
                    color: None,
                },
            ],
            gap: 6,
        }),
        busy_els.len() == 5 && idle_els.len() == 6,
{
    lemma_views_index(busy_els);
    lemma_views_index(idle_els);
    assert forall|i: int| 0 <= i < 4 implies #[trigger] busy_els[i]@ == idle_els[i]@ by {
        assert(element_views(busy_els)[i] == element_view(busy_els[i]));
        assert(element_views(idle_els)[i] == element_view(idle_els[i]));
    }
    assert(element_views(busy_els)[2] == element_view(busy_els[2]));
    match busy_els[2] {
        LayoutElement::List { items, scrollable } => {
            lemma_views_index(items@);
            assert(element_views(items@)[0] == element_view(items@[0]));
        },
        _ => {},
    }
}

/// Without the capability the panel is a single notice, whatever the engine does.
pub proof fn law_unavailable_shows_only_notice(els: Seq<LayoutElement>, busy: bool)
    requires
        element_views(els) == chat_layout(false, busy),
    ensures
        els.len() == 1,
        els[0] is Text,
        forall|i: int| 0 <= i < els.len() ==> !(#[trigger] els[i] is TextInput),
{
    lemma_views_index(els);
    assert(element_views(els)[0] == element_view(els[0]));
}

/// While the engine is busy the panel shows a spinner and no input field.
pub proof fn law_busy_shows_spinner_not_input(els: Seq<LayoutElement>)
    requires
        element_views(els) == chat_layout(true, true),
    ensures
        exists|i: int| 0 <= i < els.len() && #[trigger] els[i] is Spinner,
        forall|i: int| 0 <= i < els.len() ==> !(#[trigger] els[i] is TextInput),
{
    lemma_views_index(els);
    assert(element_views(els)[4] == element_view(els[4]));
    assert(els[4] is Spinner);
    assert forall|i: int| 0 <= i < els.len() implies !(#[trigger] els[i] is TextInput) by {
        assert(element_views(els)[i] == element_view(els[i]));
    }
}

/// When the engine is idle the panel offers an input field and no spinner.
pub proof fn law_idle_shows_input(els: Seq<LayoutElement>)
    requires
        element_views(els) == chat_layout(true, false),
    ensures
        exists|i: int| 0 <= i < els.len() && #[trigger] els[i] is TextInput,
        forall|i: int| 0 <= i < els.len() ==> !(#[trigger] els[i] is Spinner),
{
    lemma_views_index(els);
    assert(element_views(els)[4] == element_view(els[4]));
    assert(els[4] is TextInput);
    assert forall|i: int| 0 <= i < els.len() implies !(#[trigger] els[i] is Spinner) by {
        assert(element_views(els)[i] == element_view(els[i]));
    }
}

/// With the capability the panel always shows the conversation history list.
pub proof fn law_available_shows_history(els: Seq<LayoutElement>, busy: bool)
    requires
        element_views(els) == chat_layout(true, busy),
    ensures
        exists|i: int| 0 <= i < els.len() && #[trigger] els[i] is List,
{
    lemma_views_index(els);
    assert(element_views(els)[2] == element_view(els[2]));
    assert(els[2] is List);
}

} // verus!
