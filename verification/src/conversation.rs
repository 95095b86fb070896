//! Conversation history: turns, roles and the pluggable store strategy.

use vstd::prelude::*;

use crate::clock::{is_clock_stamp, utc_now};

verus! {

/// Speaker role of a conversation turn.
#[derive(Debug, Clone, Copy, PartialEq, Eq, Structural)]
pub enum TurnRole {
    User,
    Assistant,
}

/// The display label of a role.
pub open spec fn role_label(role: TurnRole) -> Seq<char> {
    match role {
        TurnRole::User => "You"@,
        TurnRole::Assistant => "AI"@,
    }
}

impl TurnRole {
    /// Short label shown next to a turn.
    pub fn label(&self) -> (r: &'static str)
        ensures
            r@ == role_label(*self),
    {
        match self {
            TurnRole::User => "You",
            TurnRole::Assistant => "AI",
        }
    }
}

/// Mathematical view of one turn.
pub struct TurnView {
    pub role: TurnRole,
    pub content: Seq<char>,
    pub timestamp: Seq<char>,
}

/// One exchange in the conversation.
#[derive(Debug, PartialEq)]
pub struct ConversationTurn {
    pub role: TurnRole,
    pub content: String,
    /// ISO 8601 timestamp (UTC).
    pub timestamp: String,
}

impl View for ConversationTurn {
    type V = TurnView;

    open spec fn view(&self) -> TurnView {
        TurnView { role: self.role, content: self.content@, timestamp: self.timestamp@ }
    }
}

impl Clone for ConversationTurn {
    fn clone(&self) -> (r: Self)
        ensures
            r@ == self@,
    {
        ConversationTurn {
            role: self.role,
            content: self.content.clone(),
            timestamp: self.timestamp.clone(),
        }
    }
}

impl ConversationTurn {
    /// Create a new turn stamped with the current UTC time.
    pub fn now(role: TurnRole, content: &str) -> (t: Self)
        ensures
            t.role == role,
            t.content@ == content@,
            is_clock_stamp(t.timestamp@),
    {
        let ts = utc_now();
        Self::at(role, content, ts.as_str())
    }

    /// A turn with an explicit timestamp.
    pub fn at(role: TurnRole, content: &str, timestamp: &str) -> (t: Self)
        ensures
            t@ == (TurnView { role, content: content@, timestamp: timestamp@ }),
    {
        ConversationTurn { role, content: content.to_owned(), timestamp: timestamp.to_owned() }
    }
}

/// The views of a sequence of turns.
pub open spec fn turn_views(turns: Seq<ConversationTurn>) -> Seq<TurnView> {
    turns.map_values(|t: ConversationTurn| t@)
}

/// Copies every turn of `turns`, in order.
fn copy_turns(turns: &Vec<ConversationTurn>) -> (r: Vec<ConversationTurn>)
    ensures
        turn_views(r@) == turn_views(turns@),
{
    let mut out: Vec<ConversationTurn> = Vec::new();
    let n = turns.len();
    for i in 0..n
        invariant
            n == turns.len(),
            out.len() == i,
            forall|j: int| 0 <= j < i ==> #[trigger] out@[j]@ == turns@[j]@,
    {
        out.push(turns[i].clone());
    }
    assert(turn_views(out@) =~= turn_views(turns@));
    out
}

/// Pluggable persistence strategy for conversation history.
///
/// A store behaves as the sequence of turns `turns()`: appends go to its end,
/// `history` reads it back in order and `clear` empties it.
pub trait ConversationStore {
    /// The turns recorded so far, oldest first.
    spec fn turns(&self) -> Seq<TurnView>;

    /// Append a new turn to the history.
    fn append(&mut self, turn: ConversationTurn)
        ensures
            final(self).turns() == old(self).turns().push(turn@),
    ;

    /// Return the full conversation history in order.
    fn history(&self) -> (h: Vec<ConversationTurn>)
        ensures
            turn_views(h@) == self.turns(),
    ;

    /// Clear all turns.
    fn clear(&mut self)
        ensures
            final(self).turns() == Seq::<TurnView>::empty(),
    ;

    /// Number of turns stored.
    fn len(&self) -> (n: usize)
        ensures
            n == self.turns().len(),
    {
        let h = self.history();
        h.len()
    }

    /// Returns `true` when no turns have been recorded yet.
    fn is_empty(&self) -> (b: bool)
        ensures
            b == (self.turns().len() == 0),
    {
        self.len() == 0
    }
}

/// Ephemeral in-memory store. State is lost when the process exits.
pub struct InMemoryConversationStore {
    turns: Vec<ConversationTurn>,
}

impl InMemoryConversationStore {
    /// An empty store.
    pub fn new() -> (s: Self)
        ensures
            s.turns() == Seq::<TurnView>::empty(),
    {
        InMemoryConversationStore { turns: Vec::new() }
    }
}

impl Default for InMemoryConversationStore {
    fn default() -> (s: Self)
        ensures
            s.turns() == Seq::<TurnView>::empty(),
    {
        Self::new()
    }
}

impl ConversationStore for InMemoryConversationStore {
    closed spec fn turns(&self) -> Seq<TurnView> {
        turn_views(self.turns@)
    }

    fn append(&mut self, turn: ConversationTurn) {
        self.turns.push(turn);
        assert(turn_views(self.turns@) =~= turn_views(old(self).turns@).push(turn@));
    }

    fn history(&self) -> (h: Vec<ConversationTurn>) {
        copy_turns(&self.turns)
    }

    fn clear(&mut self) {
        self.turns.clear();
        assert(turn_views(self.turns@) =~= Seq::<TurnView>::empty());
    }
}

/// Durable store: the history file is read once when the store is made, and
/// the caller writes `history()` back after every `append` and `clear`.
pub struct TomlConversationStore {
    turns: Vec<ConversationTurn>,
}

impl TomlConversationStore {
    /// A store holding the turns read from the history file; a missing or
    /// unreadable file (`None`) starts with an empty history.
    pub fn new(loaded: Option<Vec<ConversationTurn>>) -> (s: Self)
        ensures
            s.turns() == match loaded {
                Some(v) => turn_views(v@),
                None => Seq::<TurnView>::empty(),
            },
    {
        match loaded {
            Some(v) => TomlConversationStore { turns: v },
            None => {
                let s = TomlConversationStore { turns: Vec::new() };
                assert(turn_views(s.turns@) =~= Seq::<TurnView>::empty());
                s
            },
        }
    }
}

impl ConversationStore for TomlConversationStore {
    closed spec fn turns(&self) -> Seq<TurnView> {
        turn_views(self.turns@)
    }

    fn append(&mut self, turn: ConversationTurn) {
        self.turns.push(turn);
        assert(turn_views(self.turns@) =~= turn_views(old(self).turns@).push(turn@));
    }

    fn history(&self) -> (h: Vec<ConversationTurn>) {
        copy_turns(&self.turns)
    }

    fn clear(&mut self) {
        self.turns.clear();
        assert(turn_views(self.turns@) =~= Seq::<TurnView>::empty());
    }
}

/// One change made to a store.
pub enum StoreOp {
    Append(TurnView),
    Clear,
}

/// The turns after one change: `append` adds the turn at the end, `clear`
/// empties the store (the `ensures` of `ConversationStore::append` and `clear`).
pub open spec fn apply_op(turns: Seq<TurnView>, op: StoreOp) -> Seq<TurnView> {
    match op {
        StoreOp::Append(t) => turns.push(t),
        StoreOp::Clear => Seq::empty(),
    }
}

/// The turns after a series of changes, starting from `turns`.
pub open spec fn replay(turns: Seq<TurnView>, ops: Seq<StoreOp>) -> Seq<TurnView>
    decreases ops.len(),
{
    if ops.len() == 0 {
        turns
    } else {
        apply_op(replay(turns, ops.drop_last()), ops.last())
    }
}

/// The turns that a series of changes appends, in order.
pub open spec fn appended(ops: Seq<StoreOp>) -> Seq<TurnView>
    decreases ops.len(),
{
    if ops.len() == 0 {
        Seq::empty()
    } else {
        match ops.last() {
            StoreOp::Append(t) => appended(ops.drop_last()).push(t),
            StoreOp::Clear => appended(ops.drop_last()),
        }
    }
}

/// A store that was never cleared holds the turns it started with (those
/// read from the history file, for the file-backed store) followed by every
/// turn appended since, in order.
pub proof fn law_history_without_clear(start: Seq<TurnView>, ops: Seq<StoreOp>)
    requires
        forall|i: int| 0 <= i < ops.len() ==> !(#[trigger] ops[i] is Clear),
    ensures
        replay(start, ops) == start + appended(ops),
    decreases ops.len(),
{
    if ops.len() == 0 {
        assert(start + Seq::<TurnView>::empty() =~= start);
    } else {
        let rest = ops.drop_last();
        assert forall|i: int| 0 <= i < rest.len() implies !(#[trigger] rest[i] is Clear) by {
            assert(rest[i] == ops[i]);
        }
        law_history_without_clear(start, rest);
        assert(!(ops[ops.len() - 1] is Clear));
        assert((start + appended(rest)).push(ops.last()->Append_0) =~= start + appended(
            rest,
        ).push(ops.last()->Append_0));
    }
}

/// After its last `clear` a store holds exactly the turns appended since,
/// in order, whatever it held before.
pub proof fn law_history_after_clear(start: Seq<TurnView>, ops: Seq<StoreOp>, k: int)
    requires
        0 <= k < ops.len(),
        ops[k] is Clear,
        forall|i: int| k < i < ops.len() ==> !(#[trigger] ops[i] is Clear),
    ensures
        replay(start, ops) == appended(ops.skip(k + 1)),
    decreases ops.len(),
{
    if ops.len() == k + 1 {
        assert(ops.drop_last().len() == k);
        assert(ops.skip(k + 1) =~= Seq::<StoreOp>::empty());
    } else {
        let rest = ops.drop_last();
        assert(rest[k] == ops[k]);
        assert forall|i: int| k < i < rest.len() implies !(#[trigger] rest[i] is Clear) by {
            assert(rest[i] == ops[i]);
        }
        law_history_after_clear(start, rest, k);
        let tail = ops.skip(k + 1);
        assert(tail.drop_last() =~= rest.skip(k + 1));
        assert(tail.last() == ops.last());
        assert(!(ops[ops.len() - 1] is Clear));
    }
}

} // verus!
