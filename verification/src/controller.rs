//! AiController: facade over the LLM engine and the conversation history.
//!
//! Engine start and stop, and the HTTP call of a chat, are done by the
//! caller through the closures it hands in; the controller decides what to
//! ask for and what the answer means.

use vstd::prelude::*;

use crate::clock::is_clock_stamp;
use crate::conversation::{
    turn_views, ConversationStore, ConversationTurn, InMemoryConversationStore,
    TurnRole, TurnView,
};
use crate::json::{chat_request_body, chat_request_json, reply_answer, reply_from_json, JsonValue};
use crate::model::{
    api_url_for, is_catalogue, model_for_id, opt_view, AiModel, AiModelView, KnownModel,
    LlmModel,
};

verus! {

/// What the engine reported after a start request.
#[derive(Debug, Clone, Copy, PartialEq, Eq, Structural)]
pub enum EngineReport {
    /// The engine serves on `port`.
    Running { port: u16 },
    /// The engine is in any other state.
    NotRunning,
}

/// How a start attempt with engine outcome `out` ends: the result `r` and the
/// state `after`, from the state `before` and model id `id`.
pub open spec fn start_settles(
    before: AiModelView,
    id: Seq<char>,
    out: Result<EngineReport, String>,
    r: Result<u16, String>,
    after: AiModelView,
) -> bool {
    match out {
        Err(e) => r is Err && r->Err_0@ == e@ && after == before,
        Ok(EngineReport::Running { port }) => r == Ok::<u16, String>(port) && after
            == before.started(id, port),
        Ok(EngineReport::NotRunning) => r is Err && r->Err_0@ == "engine did not start"@ && after
            == before,
    }
}

/// How a stop attempt with engine outcome `out` ends.
pub open spec fn stop_settles(
    before: AiModelView,
    out: Result<(), String>,
    r: Result<(), String>,
    after: AiModelView,
) -> bool {
    match out {
        Err(e) => r is Err && r->Err_0@ == e@ && after == before,
        Ok(()) => r is Ok && after == before.stopped(),
    }
}

/// The model a stop request must name, or why there is none.
pub open spec fn stop_target_ok(model: AiModelView, r: Result<LlmModel, String>) -> bool {
    match model.active_model {
        None => r is Err && r->Err_0@ == "no active model"@,
        Some(id) => match model_for_id(id) {
            Some(m) => r == Ok::<LlmModel, String>(m),
            None => r is Err && r->Err_0@ == "unknown model: "@ + id,
        },
    }
}

/// The prompt sent to the model: the question alone, or prefixed by context.
pub open spec fn chat_prompt_text(question: Seq<char>, context: Seq<char>) -> Seq<char> {
    if context.len() == 0 {
        question
    } else {
        "Context: "@ + context + "\n\nQuestion: "@ + question
    }
}

/// The chat completions endpoint under an API base URL.
pub open spec fn chat_url(api: Seq<char>) -> Seq<char> {
    api + "/chat/completions"@
}

/// Compares two strings.
fn same_text(a: &str, b: &str) -> (r: bool)
    ensures
        r == (a@ == b@),
{
    a.to_owned() == b.to_owned()
}

/// Shared controller over the engine state and a conversation store.
pub struct AiController<S: ConversationStore> {
    state: AiModel,
    conversation: S,
}

impl AiController<InMemoryConversationStore> {
    /// A stopped controller with an empty in-memory history.
    pub fn new() -> (c: Self)
        ensures
            c.model() == AiModelView::initial(),
            c.turns() == Seq::<TurnView>::empty(),
    {
        AiController { state: AiModel::new(), conversation: InMemoryConversationStore::new() }
    }
}

impl Default for AiController<InMemoryConversationStore> {
    fn default() -> (c: Self)
        ensures
            c.model() == AiModelView::initial(),
            c.turns() == Seq::<TurnView>::empty(),
    {
        Self::new()
    }
}

impl<S: ConversationStore> AiController<S> {
    /// The engine state.
    pub closed spec fn model(&self) -> AiModelView {
        self.state@
    }

    /// Id of the model the engine was started with, if any.
    pub open spec fn active_model_id(&self) -> Option<Seq<char>> {
        self.model().active_model
    }

    /// The conversation history.
    pub closed spec fn turns(&self) -> Seq<TurnView> {
        self.conversation.turns()
    }

    /// Create a controller with an explicit conversation store.
    pub fn with_conversation(store: S) -> (c: Self)
        ensures
            c.model() == AiModelView::initial(),
            c.turns() == store.turns(),
    {
        AiController { state: AiModel::new(), conversation: store }
    }

    /// Append a user message and the AI's reply to the conversation history.
    pub fn record_exchange(&mut self, user_msg: &str, ai_reply: &str)
        ensures
            final(self).model() == old(self).model(),
            final(self).turns().len() == old(self).turns().len() + 2,
            final(self).turns().take(old(self).turns().len() as int) == old(self).turns(),
            final(self).turns()[old(self).turns().len() as int].role == TurnRole::User,
            final(self).turns()[old(self).turns().len() as int].content == user_msg@,
            is_clock_stamp(final(self).turns()[old(self).turns().len() as int].timestamp),
            final(self).turns()[old(self).turns().len() + 1int].role == TurnRole::Assistant,
            final(self).turns()[old(self).turns().len() + 1int].content == ai_reply@,
            is_clock_stamp(final(self).turns()[old(self).turns().len() + 1int].timestamp),
    {
        self.conversation.append(ConversationTurn::now(TurnRole::User, user_msg));
        self.conversation.append(ConversationTurn::now(TurnRole::Assistant, ai_reply));
        assert(self.turns().take(old(self).turns().len() as int) =~= old(self).turns());
    }

    /// Return the full conversation history.
    pub fn history(&self) -> (h: Vec<ConversationTurn>)
        ensures
            turn_views(h@) == self.turns(),
    {
        self.conversation.history()
    }

    /// Clear the conversation history.
    pub fn clear_history(&mut self)
        ensures
            final(self).turns() == Seq::<TurnView>::empty(),
            final(self).model() == old(self).model(),
    {
        self.conversation.clear();
    }

    /// Snapshot of the current model state.
    pub fn snapshot(&self) -> (m: AiModel)
        ensures
            m@ == self.model(),
    {
        self.state.clone()
    }

    /// List all known models.
    pub fn list_models(&self) -> (r: Vec<KnownModel>)
        ensures
            is_catalogue(r@),
    {
        KnownModel::all()
    }

    /// The engine model that a model id names.
    pub fn model_from_id(id: &str) -> (r: Result<LlmModel, String>)
        ensures
            match model_for_id(id@) {
                Some(m) => r == Ok::<LlmModel, String>(m),
                None => r is Err && r->Err_0@ == "unknown model: "@ + id@,
            },
    {
        if same_text(id, "qwen3-4b") {
            Ok(LlmModel::Qwen3_4B)
        } else if same_text(id, "qwen3-8b") {
            Ok(LlmModel::Qwen3_8B)
        } else if same_text(id, "qwen2.5-coder-7b") {
            Ok(LlmModel::Qwen25Coder7B)
        } else {
            let mut msg = "unknown model: ".to_owned();
            msg.append(id);
            Err(msg)
        }
    }

    /// Settles a start of model `model_id` once the engine reported `outcome`.
    pub fn finish_start(&mut self, model_id: &str, outcome: Result<EngineReport, String>) -> (r:
        Result<u16, String>)
        ensures
            start_settles(old(self).model(), model_id@, outcome, r, final(self).model()),
            final(self).turns() == old(self).turns(),
    {
        match outcome {
            Err(e) => Err(e),
            Ok(EngineReport::NotRunning) => Err("engine did not start".to_owned()),
            Ok(EngineReport::Running { port }) => {
                self.state.set_running(port);
                self.state.active_model = Some(model_id.to_owned());
                Ok(port)
            },
        }
    }

    /// Start the LLM engine with the given model id; `launch` starts the
    /// engine process for the chosen model and reports its status.
    ///
    /// Returns `Ok(port)` on success or an error string.
    pub fn start<F>(&mut self, model_id: &str, launch: F) -> (r: Result<u16, String>) where
        F: FnOnce(LlmModel) -> Result<EngineReport, String>,

        requires
            forall|m: LlmModel| #[trigger] call_requires(launch, (m,)),
        ensures
            final(self).turns() == old(self).turns(),
            match model_for_id(model_id@) {
                None => r is Err && r->Err_0@ == "unknown model: "@ + model_id@
                    && final(self).model() == old(self).model(),
                Some(m) => exists|out: Result<EngineReport, String>|
                    call_ensures(launch, (m,), out) && start_settles(
                        old(self).model(),
                        model_id@,
                        out,
                        r,
                        final(self).model(),
                    ),
            },
    {
        let m = match Self::model_from_id(model_id) {
            Ok(m) => m,
            Err(e) => return Err(e),
        };
        let outcome = launch(m);
        self.finish_start(model_id, outcome)
    }

    /// The model a stop request must name: the active one.
    pub fn stop_target(&self) -> (r: Result<LlmModel, String>)
        ensures
            stop_target_ok(self.model(), r),
    {
        match &self.state.active_model {
            None => Err("no active model".to_owned()),
            Some(id) => Self::model_from_id(id.as_str()),
        }
    }

    /// Settles a stop once the engine reported `outcome`.
    pub fn finish_stop(&mut self, outcome: Result<(), String>) -> (r: Result<(), String>)
        ensures
            stop_settles(old(self).model(), outcome, r, final(self).model()),
            final(self).turns() == old(self).turns(),
    {
        match outcome {
            Err(e) => Err(e),
            Ok(()) => {
                self.state.set_stopped();
                self.state.active_model = None;
                Ok(())
            },
        }
    }

    /// Stop the LLM engine; `halt` stops the engine process of the active model.
    pub fn stop<F>(&mut self, halt: F) -> (r: Result<(), String>) where
        F: FnOnce(LlmModel) -> Result<(), String>,

        requires
            forall|m: LlmModel| #[trigger] call_requires(halt, (m,)),
        ensures
            final(self).turns() == old(self).turns(),
            match old(self).active_model_id() {
                None => r is Err && r->Err_0@ == "no active model"@ && final(self).model()
                    == old(self).model(),
                Some(id) => match model_for_id(id) {
                    None => r is Err && r->Err_0@ == "unknown model: "@ + id && final(self).model()
                        == old(self).model(),
                    Some(m) => exists|out: Result<(), String>|
                        call_ensures(halt, (m,), out) && stop_settles(
                            old(self).model(),
                            out,
                            r,
                            final(self).model(),
                        ),
                },
            },
    {
        let m = match self.stop_target() {
            Ok(m) => m,
            Err(e) => return Err(e),
        };
        let outcome = halt(m);
        self.finish_stop(outcome)
    }

    /// The prompt for `question`, prefixed by `context` when there is one.
    pub fn chat_prompt(question: &str, context: &str) -> (p: String)
        ensures
            p@ == chat_prompt_text(question@, context@),
    {
        if context.is_empty() {
            question.to_owned()
        } else {
            let mut p = "Context: ".to_owned();
            p.append(context);
            p.append("\n\nQuestion: ");
            p.append(question);
            p
        }
    }

    /// The chat completions URL of the running engine.
    pub fn chat_endpoint(&self) -> (r: Result<String, String>)
        ensures
            match self.model().api_url() {
                Some(api) => r is Ok && r->Ok_0@ == chat_url(api),
                None => r is Err && r->Err_0@ == "AI engine is not running"@,
            },
    {
        match self.state.api_url() {
            Some(api) => {
                let mut url = api;
                url.append("/chat/completions");
                Ok(url)
            },
            None => Err("AI engine is not running".to_owned()),
        }
    }

    /// Send a chat question to the running LLM engine and return the response.
    ///
    /// `transport` posts the JSON body (second argument) to the URL (first
    /// argument) and returns the parsed JSON reply, or the error message of
    /// a failed request or an unreadable reply.
    pub fn chat<F>(&self, question: &str, context: &str, transport: F) -> (r: Result<
        String,
        String,
    >) where F: FnOnce(String, String) -> Result<JsonValue, String>,

        requires
            forall|url: String, body: String| #[trigger] call_requires(transport, (url, body)),
        ensures
            match self.model().api_url() {
                None => r is Err && r->Err_0@ == "AI engine is not running"@,
                Some(api) => exists|url: String, body: String, resp: Result<JsonValue, String>|
                    {
                        &&& url@ == chat_url(api)
                        &&& body@ == chat_request_json(chat_prompt_text(question@, context@))
                        &&& call_ensures(transport, (url, body), resp)
                        &&& match resp {
                            Err(e) => r is Err && r->Err_0@ == e@,
                            Ok(v) => reply_answer(v, r),
                        }
                    },
            },
    {
        let url = match self.chat_endpoint() {
            Ok(u) => u,
            Err(e) => return Err(e),
        };
        let prompt = Self::chat_prompt(question, context);
        let body = chat_request_body(prompt.as_str());
        let resp = transport(url, body);
        match resp {
            Err(e) => Err(e),
            Ok(v) => reply_from_json(&v),
        }
    }
}

/// A start the engine confirmed on `port` leaves the controller running that
/// model, with the chat endpoint on that port.
pub proof fn law_started_engine_serves_chat(
    before: AiModelView,
    id: Seq<char>,
    port: u16,
    r: Result<u16, String>,
    after: AiModelView,
)
    requires
        start_settles(before, id, Ok(EngineReport::Running { port }), r, after),
    ensures
        r == Ok::<u16, String>(port),
        after.running,
        after.port == Some(port),
        after.active_model == Some(id),
        after.api_url() == Some(api_url_for(port)),
{
}

/// A start that the engine refused or did not complete changes nothing.
pub proof fn law_failed_start_keeps_state(
    before: AiModelView,
    id: Seq<char>,
    out: Result<EngineReport, String>,
    r: Result<u16, String>,
    after: AiModelView,
)
    requires
        start_settles(before, id, out, r, after),
        !(out matches Ok(EngineReport::Running { .. })),
    ensures
        r is Err,
        after == before,
{
}

/// Stopping what was started returns to the initial state: nothing runs and
/// there is no chat endpoint.
pub proof fn law_stop_undoes_start(
    before: AiModelView,
    id: Seq<char>,
    port: u16,
    r1: Result<u16, String>,
    mid: AiModelView,
    r2: Result<(), String>,
    after: AiModelView,
)
    requires
        start_settles(before, id, Ok(EngineReport::Running { port }), r1, mid),
        stop_settles(mid, Ok(()), r2, after),
    ensures
        after == AiModelView::initial(),
        after.api_url() is None,
{
}

/// Without an active model there is nothing to stop.
pub proof fn law_nothing_to_stop(model: AiModelView, r: Result<LlmModel, String>)
    requires
        model.active_model is None,
        stop_target_ok(model, r),
    ensures
        r is Err,
        r->Err_0@ == "no active model"@,
{
}

/// A started model can always be named again for stopping.
pub proof fn law_started_model_can_be_stopped(
    before: AiModelView,
    id: Seq<char>,
    port: u16,
    r: Result<u16, String>,
    after: AiModelView,
    target: Result<LlmModel, String>,
)
    requires
        model_for_id(id) is Some,
        start_settles(before, id, Ok(EngineReport::Running { port }), r, after),
        stop_target_ok(after, target),
    ensures
        target == Ok::<LlmModel, String>(model_for_id(id)->0),
{
}

/// With no context the prompt is the question itself.
pub proof fn law_prompt_without_context(question: Seq<char>)
    ensures
        chat_prompt_text(question, Seq::empty()) == question,
{
}

} // verus!
