//! Validation rules written in the Common Expression Language, and their
//! composition into the ordered validation list of a schema node.
use vstd::prelude::*;

verus! {

/// The reason code that the API server reports when a rule fails.
#[derive(Clone, Copy, Debug, PartialEq, Eq, Structural)]
pub enum Reason {
    FieldValueInvalid,
    FieldValueForbidden,
    FieldValueRequired,
    FieldValueDuplicate,
    FieldValueInternal,
}

/// The message reported when a rule fails: a literal text, or an expression
/// that the server evaluates to a text.
#[derive(Debug)]
pub enum Message {
    Message(String),
    Expression(String),
}

pub enum MessageView {
    Message(Seq<char>),
    Expression(Seq<char>),
}

impl View for Message {
    type V = MessageView;

    open spec fn view(&self) -> MessageView {
        match self {
            Message::Message(m) => MessageView::Message(m@),
            Message::Expression(e) => MessageView::Expression(e@),
        }
    }
}

/// One declared validation rule.
#[derive(Debug)]
pub struct CelRule {
    pub rule: String,
    pub message: Option<Message>,
    pub reason: Option<Reason>,
    pub field_path: Option<String>,
}

pub struct CelRuleView {
    pub rule: Seq<char>,
    pub message: Option<MessageView>,
    pub reason: Option<Reason>,
    pub field_path: Option<Seq<char>>,
}

pub open spec fn opt_string_view(o: Option<String>) -> Option<Seq<char>> {
    match o {
        Some(s) => Some(s@),
        None => None,
    }
}

pub open spec fn opt_message_view(o: Option<Message>) -> Option<MessageView> {
    match o {
        Some(m) => Some(m@),
        None => None,
    }
}

impl View for CelRule {
    type V = CelRuleView;

    open spec fn view(&self) -> CelRuleView {
        CelRuleView {
            rule: self.rule@,
            message: opt_message_view(self.message),
            reason: self.reason,
            field_path: opt_string_view(self.field_path),
        }
    }
}

impl CelRule {
    /// A rule given by its expression alone: no message, no reason, no path.
    pub fn new(rule: String) -> (r: CelRule)
        ensures
            r@ == (CelRuleView { rule: rule@, message: None, reason: None, field_path: None }),
    {
        CelRule { rule, message: None, reason: None, field_path: None }
    }
}

/// Where a rule is declared: on a field, or on a whole struct.
#[derive(Clone, Copy, Debug, PartialEq, Eq, Structural)]
pub enum RuleScope {
    Field,
    Struct,
}

/// A composed rule, as it stands in a schema node's validation list.
#[derive(Debug)]
pub struct ValidationEntry {
    pub rule: String,
    pub message: Option<Message>,
    pub reason: Reason,
    pub field_path: Option<String>,
    /// The rule reads the prior state of the object: it is checked on update only.
    pub ratchet: bool,
}

pub struct EntryView {
    pub rule: Seq<char>,
    pub message: Option<MessageView>,
    pub reason: Reason,
    pub field_path: Option<Seq<char>>,
    pub ratchet: bool,
}

impl View for ValidationEntry {
    type V = EntryView;

    open spec fn view(&self) -> EntryView {
        EntryView {
            rule: self.rule@,
            message: opt_message_view(self.message),
            reason: self.reason,
            field_path: opt_string_view(self.field_path),
            ratchet: self.ratchet,
        }
    }
}

/// The identifier by which a rule refers to the object's prior state.
pub open spec fn prior_state_ident() -> Seq<char> {
    seq!['o', 'l', 'd', 'S', 'e', 'l', 'f']
}

/// `rule` mentions the prior-state identifier somewhere.
pub open spec fn mentions_prior_state(rule: Seq<char>) -> bool {
    exists|i: int|
        0 <= i && i + 7 <= rule.len() && #[trigger] rule.subrange(i, i + 7) == prior_state_ident()
}

/// What one declared rule becomes in a node's validation list.
pub open spec fn entry_of(r: CelRuleView, scope: RuleScope) -> EntryView {
    EntryView {
        rule: r.rule,
        message: r.message,
        reason: match r.reason {
            Some(reason) => reason,
            None => Reason::FieldValueInvalid,
        },
        field_path: r.field_path,
        ratchet: scope == RuleScope::Struct && mentions_prior_state(r.rule),
    }
}

pub open spec fn entries_view(v: Seq<ValidationEntry>) -> Seq<EntryView> {
    v.map_values(|e: ValidationEntry| e@)
}

pub open spec fn composed(rules: Seq<CelRule>, scope: RuleScope) -> Seq<EntryView> {
    rules.map_values(|r: CelRule| entry_of(r@, scope))
}

/// A copy of an optional string.
pub fn clone_opt_string(o: &Option<String>) -> (r: Option<String>)
    ensures
        opt_string_view(r) == opt_string_view(*o),
{
    match o {
        Some(s) => Some(s.clone()),
        None => None,
    }
}

/// A copy of an optional message.
pub fn clone_opt_message(o: &Option<Message>) -> (r: Option<Message>)
    ensures
        opt_message_view(r) == opt_message_view(*o),
{
    match o {
        Some(m) => Some(clone_message(m)),
        None => None,
    }
}

/// A copy of a message.
pub fn clone_message(m: &Message) -> (r: Message)
    ensures
        r@ == m@,
{
    match m {
        Message::Message(t) => Message::Message(t.clone()),
        Message::Expression(e) => Message::Expression(e.clone()),
    }
}

/// A copy of a composed rule.
pub fn clone_entry(e: &ValidationEntry) -> (r: ValidationEntry)
    ensures
        r@ == e@,
{
    ValidationEntry {
        rule: e.rule.clone(),
        message: clone_opt_message(&e.message),
        reason: e.reason,
        field_path: clone_opt_string(&e.field_path),
        ratchet: e.ratchet,
    }
}

/// A copy of a validation list.
pub fn clone_entries(v: &Vec<ValidationEntry>) -> (r: Vec<ValidationEntry>)
    ensures
        entries_view(r@) == entries_view(v@),
{
    let mut out: Vec<ValidationEntry> = Vec::new();
    let mut i: usize = 0;
    while i < v.len()
        invariant
            i <= v@.len(),
            entries_view(out@) =~= entries_view(v@.subrange(0, i as int)),
        decreases v@.len() - i,
    {
        let ghost before = out@;
        out.push(clone_entry(&v[i]));
        assert(entries_view(out@) =~= entries_view(before).push(v@[i as int]@));
        assert(v@.subrange(0, i + 1) =~= v@.subrange(0, i as int).push(v@[i as int]));
        i = i + 1;
    }
    assert(v@.subrange(0, i as int) =~= v@);
    out
}

/// Whether `rule` mentions the prior-state identifier.
pub fn reads_prior_state(rule: &str) -> (b: bool)
    ensures
        b == mentions_prior_state(rule@),
{
    let n = rule.unicode_len();
    if n < 7 {
        return false;
    }
    let mut i: usize = 0;
    while i <= n - 7
        invariant
            n == rule@.len(),
            i <= n - 6,
            n >= 7,
            forall|j: int|
                0 <= j < i ==> #[trigger] rule@.subrange(j, j + 7) != prior_state_ident(),
        decreases n - i,
    {
        if rule.get_char(i) == 'o' && rule.get_char(i + 1) == 'l' && rule.get_char(i + 2) == 'd'
            && rule.get_char(i + 3) == 'S' && rule.get_char(i + 4) == 'e' && rule.get_char(i + 5)
            == 'l' && rule.get_char(i + 6) == 'f' {
            assert(rule@.subrange(i as int, i + 7) =~= prior_state_ident());
            return true;
        }
        assert(rule@.subrange(i as int, i + 7)[0] == rule@[i as int]);
        assert(rule@.subrange(i as int, i + 7) != prior_state_ident()) by {
            if rule@.subrange(i as int, i + 7) == prior_state_ident() {
                let s = rule@.subrange(i as int, i + 7);
                assert(s[0] == rule@[i as int] && s[1] == rule@[i + 1] && s[2] == rule@[i + 2]
                    && s[3] == rule@[i + 3] && s[4] == rule@[i + 4] && s[5] == rule@[i + 5]
                    && s[6] == rule@[i + 6]);
            }
        }
        i = i + 1;
    }
    false
}

/// Composes the rules declared on one node, in declaration order. Every rule
/// is kept; a rule without a reason gets `FieldValueInvalid`.
pub fn compose(rules: &Vec<CelRule>, scope: RuleScope) -> (r: Vec<ValidationEntry>)
    ensures
        entries_view(r@) == composed(rules@, scope),
{
    let mut out: Vec<ValidationEntry> = Vec::new();
    let mut i: usize = 0;
    while i < rules.len()
        invariant
            i <= rules@.len(),
            entries_view(out@) =~= composed(rules@.subrange(0, i as int), scope),
        decreases rules@.len() - i,
    {
        let r = &rules[i];
        let reason = match r.reason {
            Some(reason) => reason,
            None => Reason::FieldValueInvalid,
        };
        let ratchet = match scope {
            RuleScope::Struct => reads_prior_state(r.rule.as_str()),
            RuleScope::Field => false,
        };
        let e = ValidationEntry {
            rule: r.rule.clone(),
            message: clone_opt_message(&r.message),
            reason,
            field_path: clone_opt_string(&r.field_path),
            ratchet,
        };
        assert(e@ == entry_of(rules@[i as int]@, scope));
        let ghost before = out@;
        out.push(e);
        assert(rules@.subrange(0, i + 1) =~= rules@.subrange(0, i as int).push(rules@[i as int]));
        assert(entries_view(out@) =~= entries_view(before).push(e@));
        i = i + 1;
    }
    assert(rules@.subrange(0, i as int) =~= rules@);
    out
}

/// Composing keeps every rule, in declaration order: entry `i` comes from
/// rule `i`, so rules `[a, b]` compose to `[a', b']` and never `[b', a']`.
pub proof fn law_rule_order_kept(rules: Seq<CelRule>, scope: RuleScope)
    ensures
        composed(rules, scope).len() == rules.len(),
        forall|i: int|
            0 <= i < rules.len() ==> #[trigger] composed(rules, scope)[i] == entry_of(rules[i]@, scope),
{
}

/// What the server reports for one failed rule.
#[derive(Debug)]
pub struct Failure {
    /// `None` where the server computes the message from an expression.
    pub message: Option<String>,
    pub reason: Reason,
    pub field_path: Option<String>,
}

pub struct FailureView {
    pub message: Option<Seq<char>>,
    pub reason: Reason,
    pub field_path: Option<Seq<char>>,
}

impl View for Failure {
    type V = FailureView;

    open spec fn view(&self) -> FailureView {
        FailureView {
            message: opt_string_view(self.message),
            reason: self.reason,
            field_path: opt_string_view(self.field_path),
        }
    }
}

/// The message of a failed rule: its own literal message, or, where it has
/// none, `failed rule: ` followed by the expression.
pub open spec fn failure_message_of(e: EntryView) -> Option<Seq<char>> {
    match e.message {
        Some(MessageView::Message(m)) => Some(m),
        Some(MessageView::Expression(_)) => None,
        None => Some("failed rule: "@ + e.rule),
    }
}

pub open spec fn failure_of(e: EntryView) -> FailureView {
    FailureView { message: failure_message_of(e), reason: e.reason, field_path: e.field_path }
}

/// The failures reported for the entries flagged in `failed`: each one, in
/// the order of the entries; no failure hides another. On create there is
/// no prior state, so a ratchet rule reports nothing.
pub open spec fn failures_of(entries: Seq<EntryView>, failed: Seq<bool>, on_update: bool) -> Seq<FailureView>
    decreases entries.len(),
{
    if entries.len() == 0 || failed.len() != entries.len() {
        Seq::empty()
    } else {
        let prev = failures_of(entries.drop_last(), failed.drop_last(), on_update);
        if failed.last() && (on_update || !entries.last().ratchet) {
            prev.push(failure_of(entries.last()))
        } else {
            prev
        }
    }
}

/// The message that the server reports when entry `e` fails.
pub fn failure_message(e: &ValidationEntry) -> (r: Option<String>)
    ensures
        opt_string_view(r) == failure_message_of(e@),
{
    match &e.message {
        Some(Message::Message(m)) => Some(m.clone()),
        Some(Message::Expression(_)) => None,
        None => {
            let mut t = String::from_str("failed rule: ");
            t.append(e.rule.as_str());
            Some(t)
        },
    }
}

/// The failures that the server reports when the rules flagged in `failed`
/// do not hold: all of them, in declaration order, but for ratchet rules
/// when the object is being created.
pub fn report_failures(entries: &Vec<ValidationEntry>, failed: &Vec<bool>, on_update: bool) -> (r: Vec<Failure>)
    requires
        entries@.len() == failed@.len(),
    ensures
        r@.map_values(|f: Failure| f@) == failures_of(entries_view(entries@), failed@, on_update),
{
    let mut out: Vec<Failure> = Vec::new();
    let mut i: usize = 0;
    while i < entries.len()
        invariant
            entries@.len() == failed@.len(),
            i <= entries@.len(),
            out@.map_values(|f: Failure| f@) =~= failures_of(
                entries_view(entries@.subrange(0, i as int)),
                failed@.subrange(0, i as int),
                on_update,
            ),
        decreases entries@.len() - i,
    {
        let ghost before = out@;
        assert(entries_view(entries@.subrange(0, i + 1)).drop_last() =~= entries_view(
            entries@.subrange(0, i as int),
        ));
        assert(failed@.subrange(0, i + 1).drop_last() =~= failed@.subrange(0, i as int));
        if failed[i] && (on_update || !entries[i].ratchet) {
            let e = &entries[i];
            let f = Failure {
                message: failure_message(e),
                reason: e.reason,
                field_path: clone_opt_string(&e.field_path),
            };
            out.push(f);
            assert(out@.map_values(|f: Failure| f@) =~= before.map_values(|f: Failure| f@).push(
                failure_of(entries@[i as int]@),
            ));
        }
        i = i + 1;
    }
    assert(entries@.subrange(0, i as int) =~= entries@);
    assert(failed@.subrange(0, i as int) =~= failed@);
    out
}

} // verus!
