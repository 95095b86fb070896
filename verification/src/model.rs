//! Engine state as seen by the controller, and the catalogue of known models.

use vstd::prelude::*;

verus! {

/// The character of a decimal digit `d < 10`.
pub open spec fn digit_char(d: nat) -> char {
    (48 + d) as char
}

/// Decimal notation of `n`, without leading zeros.
pub open spec fn decimal(n: nat) -> Seq<char>
    decreases n,
{
    if n < 10 {
        seq![digit_char(n)]
    } else {
        decimal(n / 10).push(digit_char(n % 10))
    }
}

/// The one-character string of a decimal digit.
fn digit_str(d: u16) -> (s: &'static str)
    requires
        d < 10,
    ensures
        s@ == seq![digit_char(d as nat)],
{
    proof {
        reveal_strlit("0");
        reveal_strlit("1");
        reveal_strlit("2");
        reveal_strlit("3");
        reveal_strlit("4");
        reveal_strlit("5");
        reveal_strlit("6");
        reveal_strlit("7");
        reveal_strlit("8");
        reveal_strlit("9");
    }
    let s = if d == 0 {
        "0"
    } else if d == 1 {
        "1"
    } else if d == 2 {
        "2"
    } else if d == 3 {
        "3"
    } else if d == 4 {
        "4"
    } else if d == 5 {
        "5"
    } else if d == 6 {
        "6"
    } else if d == 7 {
        "7"
    } else if d == 8 {
        "8"
    } else {
        "9"
    };
    assert(s@ =~= seq![digit_char(d as nat)]);
    s
}

/// Appends the decimal notation of `n` to `out`.
pub fn append_decimal(out: &mut String, n: u16)
    ensures
        final(out)@ == old(out)@ + decimal(n as nat),
    decreases n,
{
    if n >= 10 {
        append_decimal(out, n / 10);
        out.append(digit_str(n % 10));
        assert(old(out)@ + decimal(n as nat) =~= old(out)@ + decimal((n / 10) as nat) + seq![
            digit_char((n % 10) as nat),
        ]);
    } else {
        out.append(digit_str(n));
    }
}

/// The OpenAI-compatible API base URL of an engine listening on `port`.
pub open spec fn api_url_for(port: u16) -> Seq<char> {
    "http://127.0.0.1:"@ + decimal(port as nat) + "/v1"@
}

/// Mathematical view of the engine state.
pub struct AiModelView {
    pub running: bool,
    pub port: Option<u16>,
    pub active_model: Option<Seq<char>>,
}

impl AiModelView {
    /// The state of a freshly created controller: nothing running.
    pub open spec fn initial() -> AiModelView {
        AiModelView { running: false, port: None, active_model: None }
    }

    /// The state after the engine came up on `port` with model `id`.
    pub open spec fn started(self, id: Seq<char>, port: u16) -> AiModelView {
        AiModelView { running: true, port: Some(port), active_model: Some(id) }
    }

    /// The state after the engine was stopped.
    pub open spec fn stopped(self) -> AiModelView {
        AiModelView { running: false, port: None, active_model: None }
    }

    /// The API base URL, present while the engine runs on a known port.
    pub open spec fn api_url(self) -> Option<Seq<char>> {
        if self.running && self.port is Some {
            Some(api_url_for(self.port->0))
        } else {
            None
        }
    }
}

/// Snapshot of the engine state kept by the controller.
#[derive(Debug)]
pub struct AiModel {
    /// Whether the engine is running.
    pub running: bool,
    /// The port the engine listens on while running.
    pub port: Option<u16>,
    /// Id of the model the engine was started with.
    pub active_model: Option<String>,
}

/// The view of an optional string.
pub open spec fn opt_view(s: Option<String>) -> Option<Seq<char>> {
    match s {
        Some(v) => Some(v@),
        None => None,
    }
}

impl View for AiModel {
    type V = AiModelView;

    open spec fn view(&self) -> AiModelView {
        AiModelView {
            running: self.running,
            port: self.port,
            active_model: opt_view(self.active_model),
        }
    }
}

/// Copies an optional string.
pub fn copy_opt_string(s: &Option<String>) -> (r: Option<String>)
    ensures
        opt_view(r) == opt_view(*s),
{
    match s {
        Some(v) => Some(v.clone()),
        None => None,
    }
}

impl Clone for AiModel {
    fn clone(&self) -> (r: Self)
        ensures
            r@ == self@,
    {
        AiModel {
            running: self.running,
            port: self.port,
            active_model: copy_opt_string(&self.active_model),
        }
    }
}

impl AiModel {
    /// Nothing running, no model selected.
    pub fn new() -> (m: Self)
        ensures
            m@ == AiModelView::initial(),
    {
        AiModel { running: false, port: None, active_model: None }
    }

    /// Record that the engine runs on `port`.
    pub fn set_running(&mut self, port: u16)
        ensures
            final(self).running,
            final(self).port == Some(port),
            final(self).active_model == old(self).active_model,
    {
        self.running = true;
        self.port = Some(port);
    }

    /// Record that the engine is stopped.
    pub fn set_stopped(&mut self)
        ensures
            !final(self).running,
            final(self).port is None,
            final(self).active_model == old(self).active_model,
    {
        self.running = false;
        self.port = None;
    }

    /// The engine's API base URL while it runs.
    pub fn api_url(&self) -> (r: Option<String>)
        ensures
            opt_view(r) == self@.api_url(),
    {
        if self.running {
            match self.port {
                Some(p) => {
                    let mut url = "http://127.0.0.1:".to_owned();
                    append_decimal(&mut url, p);
                    url.append("/v1");
                    Some(url)
                },
                None => None,
            }
        } else {
            None
        }
    }
}

/// The LLM models the engine can be started with.
#[derive(Debug, Clone, Copy, PartialEq, Eq, Structural)]
pub enum LlmModel {
    Qwen3_4B,
    Qwen3_8B,
    Qwen25Coder7B,
}

/// The model that a model id names, if any.
pub open spec fn model_for_id(id: Seq<char>) -> Option<LlmModel> {
    if id == "qwen3-4b"@ {
        Some(LlmModel::Qwen3_4B)
    } else if id == "qwen3-8b"@ {
        Some(LlmModel::Qwen3_8B)
    } else if id == "qwen2.5-coder-7b"@ {
        Some(LlmModel::Qwen25Coder7B)
    } else {
        None
    }
}

/// Ids of the known models, in catalogue order.
pub open spec fn known_model_ids() -> Seq<Seq<char>> {
    seq!["qwen3-4b"@, "qwen3-8b"@, "qwen2.5-coder-7b"@]
}

/// Display names of the known models, in catalogue order.
pub open spec fn known_model_names() -> Seq<Seq<char>> {
    seq!["Qwen3 4B"@, "Qwen3 8B"@, "Qwen2.5 Coder 7B"@]
}

/// Whether `models` lists exactly the known models, in catalogue order.
pub open spec fn is_catalogue(models: Seq<KnownModel>) -> bool {
    &&& models.len() == known_model_ids().len()
    &&& forall|i: int|
        0 <= i < models.len() ==> #[trigger] models[i].id@ == known_model_ids()[i]
            && models[i].name@ == known_model_names()[i]
}

/// A model the user can choose.
#[derive(Debug)]
pub struct KnownModel {
    /// Id accepted by the controller's `start`.
    pub id: String,
    /// Human-readable name.
    pub name: String,
}

impl KnownModel {
    /// The whole catalogue, in order.
    pub fn all() -> (r: Vec<KnownModel>)
        ensures
            is_catalogue(r@),
    {
        let mut r: Vec<KnownModel> = Vec::new();
        r.push(KnownModel { id: "qwen3-4b".to_owned(), name: "Qwen3 4B".to_owned() });
        r.push(KnownModel { id: "qwen3-8b".to_owned(), name: "Qwen3 8B".to_owned() });
        r.push(
            KnownModel { id: "qwen2.5-coder-7b".to_owned(), name: "Qwen2.5 Coder 7B".to_owned() },
        );
        r
    }
}

/// Every model in the catalogue can be started by its id.
pub proof fn law_known_models_are_startable(i: int)
    requires
        0 <= i < known_model_ids().len(),
    ensures
        model_for_id(known_model_ids()[i]) is Some,
{
}

/// The number a string of decimal digits stands for (each character read
/// as its ASCII digit value).
pub open spec fn digits_value(s: Seq<char>) -> int
    decreases s.len(),
{
    if s.len() == 0 {
        0
    } else {
        digits_value(s.drop_last()) * 10 + ((s.last() as int) - 48)
    }
}

/// Whether every character of `s` is an ASCII digit `'0'..='9'`.
pub open spec fn all_ascii_digits(s: Seq<char>) -> bool {
    forall|i: int| 0 <= i < s.len() ==> '0' <= #[trigger] s[i] <= '9'
}

/// The decimal notation of `n` consists of ASCII digits, does not start with
/// a zero unless it is `"0"`, and reads back as `n`.
pub proof fn law_decimal_reads_back(n: nat)
    ensures
        all_ascii_digits(decimal(n)),
        digits_value(decimal(n)) == n,
        decimal(n).len() >= 1,
        decimal(n)[0] == '0' ==> n == 0,
    decreases n,
{
    if n >= 10 {
        law_decimal_reads_back(n / 10);
        let d = decimal(n);
        assert(d.drop_last() =~= decimal(n / 10));
        assert(d.last() == digit_char(n % 10));
        assert((digit_char(n % 10) as int) == 48 + n % 10);
        assert(digits_value(d) == digits_value(d.drop_last()) * 10 + ((d.last() as int) - 48));
        assert(digits_value(d) == (n / 10) * 10 + n % 10);
        assert(n == (n / 10) * 10 + n % 10);
        assert(d[0] == decimal(n / 10)[0]);
        assert forall|i: int| 0 <= i < d.len() implies '0' <= #[trigger] d[i] <= '9' by {
            if i < d.len() - 1 {
                assert(d[i] == decimal(n / 10)[i]);
            }
        }
    } else {
        assert((digit_char(n) as int) == 48 + n);
        assert(decimal(n)[0] == digit_char(n));
        assert(decimal(n).drop_last() =~= Seq::<char>::empty());
        assert(digits_value(decimal(n)) == digits_value(Seq::<char>::empty()) * 10 + ((
        digit_char(n) as int) - 48));
    }
}

/// Different numbers have different decimal notations.
pub proof fn law_decimal_injective(p: nat, q: nat)
    requires
        decimal(p) == decimal(q),
    ensures
        p == q,
{
    law_decimal_reads_back(p);
    law_decimal_reads_back(q);
}

/// The API URL names the engine's port: it is the fixed prefix, the port in
/// decimal, then `/v1`, and different ports give different URLs.
pub proof fn law_api_url_names_port(p: u16, q: u16)
    ensures
        api_url_for(p).subrange(17, api_url_for(p).len() - 3) == decimal(p as nat),
        digits_value(api_url_for(p).subrange(17, api_url_for(p).len() - 3)) == p,
        api_url_for(p) == api_url_for(q) ==> p == q,
{
    reveal_strlit("http://127.0.0.1:");
    reveal_strlit("/v1");
    law_decimal_reads_back(p as nat);
    let a = api_url_for(p);
    let b = api_url_for(q);
    assert(a.subrange(17, a.len() - 3) =~= decimal(p as nat));
    assert(b.subrange(17, b.len() - 3) =~= decimal(q as nat));
    if a == b {
        law_decimal_injective(p as nat, q as nat);
    }
}

/// The models of the catalogue, at the same positions as `known_model_ids`.
pub open spec fn known_models() -> Seq<LlmModel> {
    seq![LlmModel::Qwen3_4B, LlmModel::Qwen3_8B, LlmModel::Qwen25Coder7B]
}

/// Only catalogue ids name a model: an id names a model exactly when it is
/// in the catalogue, and then it names the model at the same position.
pub proof fn law_only_catalogue_ids_name_models(id: Seq<char>)
    ensures
        model_for_id(id) is Some <==> exists|i: int|
            0 <= i < known_model_ids().len() && #[trigger] known_model_ids()[i] == id,
        forall|i: int|
            0 <= i < known_model_ids().len() && #[trigger] known_model_ids()[i] == id
                ==> model_for_id(id) == Some(known_models()[i]),
{
    reveal_strlit("qwen3-4b");
    reveal_strlit("qwen3-8b");
    reveal_strlit("qwen2.5-coder-7b");
    assert("qwen3-4b"@[6] != "qwen3-8b"@[6]);
    assert("qwen3-4b"@.len() != "qwen2.5-coder-7b"@.len());
    assert("qwen3-8b"@.len() != "qwen2.5-coder-7b"@.len());
    if model_for_id(id) is Some {
        if id == "qwen3-4b"@ {
            assert(known_model_ids()[0] == id);
        } else if id == "qwen3-8b"@ {
            assert(known_model_ids()[1] == id);
        } else {
            assert(known_model_ids()[2] == id);
        }
    }
}

/// A freshly created controller has no engine running and no API URL.
pub proof fn law_initial_state_is_stopped()
    ensures
        !AiModelView::initial().running,
        AiModelView::initial().api_url() is None,
        AiModelView::initial().active_model is None,
{
}

/// Once the engine is up on `port`, the API URL names that port.
pub proof fn law_started_serves_api(m: AiModelView, id: Seq<char>, port: u16)
    ensures
        m.started(id, port).running,
        m.started(id, port).api_url() == Some(api_url_for(port)),
        m.started(id, port).active_model == Some(id),
{
}

/// Stopping the engine returns to the initial state, whatever ran before.
pub proof fn law_stop_resets(m: AiModelView)
    ensures
        m.stopped() == AiModelView::initial(),
        m.stopped().api_url() is None,
{
}

} // verus!
