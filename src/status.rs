//! The per-call execution status that a script's payload mutates, and the
//! precedence rule that turns a finished status into one replacement action.
use crate::slot::{clean_slot, slot_changed, slot_into_value, slot_is_changed, slot_read, slot_value, slot_write};
use dirty2::Dirty;
use vstd::prelude::*;

verus! {

/// A text slot as the contracts see it: its value, and whether it was written
/// since the call began (whatever was written).
pub struct SlotModel {
    pub value: Seq<char>,
    pub changed: bool,
}

/// The mathematical content of an `ExecutionStatus`.
pub struct StatusModel {
    pub is_text_selected: bool,
    pub info: Option<Seq<char>>,
    pub error: Option<Seq<char>>,
    pub insertions: Seq<Seq<char>>,
    pub full_text: SlotModel,
    pub text: SlotModel,
    pub selection: SlotModel,
}

/// One side effect that a script can have through its payload.
pub enum PayloadEffect {
    PostInfo(Seq<char>),
    PostError(Seq<char>),
    Insert(Seq<char>),
    SetFullText(Seq<char>),
    SetText(Seq<char>),
    SetSelection(Seq<char>),
}

/// The replacement action as the contracts see it.
pub enum ReplacementModel {
    Full(Seq<char>),
    Selection(Seq<char>),
    Insert(Seq<Seq<char>>),
    NoOp,
}

pub open spec fn opt_text(o: Option<String>) -> Option<Seq<char>> {
    match o {
        Some(s) => Some(s@),
        None => None,
    }
}

pub open spec fn opt_str(o: Option<&str>) -> Option<Seq<char>> {
    match o {
        Some(s) => Some(s@),
        None => None,
    }
}

pub open spec fn opt_ref_text(o: Option<&String>) -> Option<Seq<char>> {
    match o {
        Some(s) => Some(s@),
        None => None,
    }
}

pub open spec fn texts(v: Seq<String>) -> Seq<Seq<char>> {
    v.map_values(|s: String| s@)
}

pub open spec fn model_of_slot(d: Dirty<String>) -> SlotModel {
    SlotModel { value: slot_value(d), changed: slot_changed(d) }
}

pub open spec fn clean(value: Seq<char>) -> SlotModel {
    SlotModel { value, changed: false }
}

pub open spec fn written(value: Seq<char>) -> SlotModel {
    SlotModel { value, changed: true }
}

/// The status at the start of a call on `full_text` with an optional selection:
/// no messages, no insertions, `text` is the selection or else the full text,
/// `selection` is the selection or else empty, nothing changed yet.
pub open spec fn begin(full_text: Seq<char>, selection: Option<Seq<char>>) -> StatusModel {
    StatusModel {
        is_text_selected: selection is Some && selection->0.len() > 0,
        info: None,
        error: None,
        insertions: Seq::empty(),
        full_text: clean(full_text),
        text: clean(
            match selection {
                Some(s) => s,
                None => full_text,
            },
        ),
        selection: clean(
            match selection {
                Some(s) => s,
                None => Seq::empty(),
            },
        ),
    }
}

/// The status after one payload side effect.
pub open spec fn step(m: StatusModel, e: PayloadEffect) -> StatusModel {
    match e {
        PayloadEffect::PostInfo(s) => StatusModel { info: Some(s), ..m },
        PayloadEffect::PostError(s) => StatusModel { error: Some(s), ..m },
        PayloadEffect::Insert(s) => StatusModel { insertions: m.insertions.push(s), ..m },
        PayloadEffect::SetFullText(s) => StatusModel { full_text: written(s), ..m },
        PayloadEffect::SetText(s) => StatusModel { text: written(s), ..m },
        PayloadEffect::SetSelection(s) => StatusModel { selection: written(s), ..m },
    }
}

/// The status after a sequence of payload side effects, in order.
pub open spec fn run(m: StatusModel, effects: Seq<PayloadEffect>) -> StatusModel
    decreases effects.len(),
{
    if effects.len() == 0 {
        m
    } else {
        step(run(m, effects.drop_last()), effects.last())
    }
}

/// The replacement action of a finished status, first match wins: insertions,
/// then a written full text, then a written selection, then a written `text`
/// (a selection replacement if text was selected, else a full replacement).
pub open spec fn resolve(m: StatusModel) -> ReplacementModel {
    if m.insertions.len() > 0 {
        ReplacementModel::Insert(m.insertions)
    } else if m.full_text.changed {
        ReplacementModel::Full(m.full_text.value)
    } else if m.selection.changed {
        ReplacementModel::Selection(m.selection.value)
    } else if m.is_text_selected && m.text.changed {
        ReplacementModel::Selection(m.text.value)
    } else if m.text.changed {
        ReplacementModel::Full(m.text.value)
    } else {
        ReplacementModel::NoOp
    }
}

/// How the caller's document is to change after a script ran.
#[derive(Debug, PartialEq)]
pub enum TextReplacement {
    Full(String),
    Selection(String),
    Insert(Vec<String>),
    NoOp,
}

impl View for TextReplacement {
    type V = ReplacementModel;

    open spec fn view(&self) -> ReplacementModel {
        match self {
            TextReplacement::Full(s) => ReplacementModel::Full(s@),
            TextReplacement::Selection(s) => ReplacementModel::Selection(s@),
            TextReplacement::Insert(v) => ReplacementModel::Insert(texts(v@)),
            TextReplacement::NoOp => ReplacementModel::NoOp,
        }
    }
}

/// What one call of a script did: messages, insertions and the three
/// change-tracked text slots.
#[derive(Debug)]
pub struct ExecutionStatus {
    is_text_selected: bool,
    info: Option<String>,
    error: Option<String>,
    insert: Vec<String>,
    full_text: Dirty<String>,
    text: Dirty<String>,
    selection: Dirty<String>,
}

impl View for ExecutionStatus {
    type V = StatusModel;

    closed spec fn view(&self) -> StatusModel {
        StatusModel {
            is_text_selected: self.is_text_selected,
            info: opt_text(self.info),
            error: opt_text(self.error),
            insertions: texts(self.insert@),
            full_text: model_of_slot(self.full_text),
            text: model_of_slot(self.text),
            selection: model_of_slot(self.selection),
        }
    }
}

fn copy_text(s: &str) -> (r: String)
    ensures
        r@ == s@,
{
    String::from_str(s)
}

impl Default for ExecutionStatus {
    /// The status of a call on empty text without a selection.
    fn default() -> (r: ExecutionStatus)
        ensures
            r@ == begin(Seq::empty(), None),
    {
        proof {
            reveal_strlit("");
        }
        assert(""@ =~= Seq::<char>::empty());
        ExecutionStatus::new("", None)
    }
}

impl ExecutionStatus {
    /// A fresh status for a call on `full_text` with an optional selection.
    pub fn new(full_text: &str, selection: Option<&str>) -> (r: ExecutionStatus)
        ensures
            r@ == begin(full_text@, opt_str(selection)),
    {
        let text = match selection {
            Some(s) => copy_text(s),
            None => copy_text(full_text),
        };
        let sel = match selection {
            Some(s) => copy_text(s),
            None => String::new(),
        };
        let is_text_selected = match selection {
            Some(s) => !s.is_empty(),
            None => false,
        };
        let r = ExecutionStatus {
            is_text_selected,
            info: None,
            error: None,
            insert: Vec::new(),
            full_text: clean_slot(copy_text(full_text)),
            text: clean_slot(text),
            selection: clean_slot(sel),
        };
        assert(texts(r.insert@) =~= Seq::<Seq<char>>::empty());
        r
    }

    /// Starts a new call: everything the previous call left is dropped.
    pub fn reset(&mut self, full_text: &str, selection: Option<&str>)
        ensures
            final(self)@ == begin(full_text@, opt_str(selection)),
    {
        *self = ExecutionStatus::new(full_text, selection);
    }

    /// The last message posted with `postInfo`, if any.
    pub fn info(&self) -> (r: Option<&String>)
        ensures
            opt_ref_text(r) == self@.info,
    {
        self.info.as_ref()
    }

    /// The last message posted with `postError`, if any.
    pub fn error(&self) -> (r: Option<&String>)
        ensures
            opt_ref_text(r) == self@.error,
    {
        self.error.as_ref()
    }

    /// Resolves the finished status into one replacement action (see `resolve`).
    pub fn into_replacement(self) -> (r: TextReplacement)
        ensures
            r@ == resolve(self@),
    {
        if self.insert.len() > 0 {
            TextReplacement::Insert(self.insert)
        } else if slot_is_changed(&self.full_text) {
            TextReplacement::Full(slot_into_value(self.full_text))
        } else if slot_is_changed(&self.selection) {
            TextReplacement::Selection(slot_into_value(self.selection))
        } else if self.is_text_selected && slot_is_changed(&self.text) {
            TextReplacement::Selection(slot_into_value(self.text))
        } else if slot_is_changed(&self.text) {
            TextReplacement::Full(slot_into_value(self.text))
        } else {
            TextReplacement::NoOp
        }
    }

    /// Payload `postInfo(message)`: replaces the info message.
    pub fn post_info(&mut self, message: String)
        ensures
            final(self)@ == step(old(self)@, PayloadEffect::PostInfo(message@)),
    {
        self.info = Some(message);
    }

    /// Payload `postError(message)`: replaces the error message.
    pub fn post_error(&mut self, message: String)
        ensures
            final(self)@ == step(old(self)@, PayloadEffect::PostError(message@)),
    {
        self.error = Some(message);
    }

    /// Payload `insert(fragment)`: appends to the insertions, in call order.
    pub fn insert(&mut self, fragment: String)
        ensures
            final(self)@ == step(old(self)@, PayloadEffect::Insert(fragment@)),
    {
        let ghost before = self.insert@;
        self.insert.push(fragment);
        assert(texts(self.insert@) =~= texts(before).push(fragment@));
    }

    /// Payload getter of `fullText`.
    pub fn full_text(&self) -> (r: &String)
        ensures
            r@ == self@.full_text.value,
    {
        slot_read(&self.full_text)
    }

    /// Payload getter of `text`.
    pub fn text(&self) -> (r: &String)
        ensures
            r@ == self@.text.value,
    {
        slot_read(&self.text)
    }

    /// Payload getter of `selection`.
    pub fn selection(&self) -> (r: &String)
        ensures
            r@ == self@.selection.value,
    {
        slot_read(&self.selection)
    }

    /// Payload setter of `fullText`: overwrites it and marks it changed.
    pub fn set_full_text(&mut self, value: String)
        ensures
            final(self)@ == step(old(self)@, PayloadEffect::SetFullText(value@)),
    {
        slot_write(&mut self.full_text, value);
    }

    /// Payload setter of `text`: overwrites it and marks it changed.
    pub fn set_text(&mut self, value: String)
        ensures
            final(self)@ == step(old(self)@, PayloadEffect::SetText(value@)),
    {
        slot_write(&mut self.text, value);
    }

    /// Payload setter of `selection`: overwrites it and marks it changed.
    pub fn set_selection(&mut self, value: String)
        ensures
            final(self)@ == step(old(self)@, PayloadEffect::SetSelection(value@)),
    {
        slot_write(&mut self.selection, value);
    }
}

/// A place that payload side effects write to.
pub enum Channel {
    Info,
    Error,
    FullText,
    Text,
    Selection,
}

/// The value one side effect writes to a channel, if it writes there.
pub open spec fn written_to(e: PayloadEffect, c: Channel) -> Option<Seq<char>> {
    match (e, c) {
        (PayloadEffect::PostInfo(s), Channel::Info) => Some(s),
        (PayloadEffect::PostError(s), Channel::Error) => Some(s),
        (PayloadEffect::SetFullText(s), Channel::FullText) => Some(s),
        (PayloadEffect::SetText(s), Channel::Text) => Some(s),
        (PayloadEffect::SetSelection(s), Channel::Selection) => Some(s),
        _ => None,
    }
}

/// The last value that a sequence of side effects wrote to a channel.
pub open spec fn last_written(effects: Seq<PayloadEffect>, c: Channel) -> Option<Seq<char>>
    decreases effects.len(),
{
    if effects.len() == 0 {
        None
    } else {
        match written_to(effects.last(), c) {
            Some(s) => Some(s),
            None => last_written(effects.drop_last(), c),
        }
    }
}

/// The fragments that a sequence of side effects inserted, in order.
pub open spec fn inserted(effects: Seq<PayloadEffect>) -> Seq<Seq<char>>
    decreases effects.len(),
{
    if effects.len() == 0 {
        Seq::empty()
    } else {
        match effects.last() {
            PayloadEffect::Insert(s) => inserted(effects.drop_last()).push(s),
            _ => inserted(effects.drop_last()),
        }
    }
}

pub open spec fn slot_after(start: SlotModel, last: Option<Seq<char>>) -> SlotModel {
    match last {
        Some(v) => written(v),
        None => start,
    }
}

/// After side effects from any status, each message is the last one posted
/// (else what it was), the insertions gained are those inserted, in order, and
/// each slot holds its last write, marked changed (else it is as it was).
pub proof fn lemma_run_effects(m: StatusModel, effects: Seq<PayloadEffect>)
    ensures
        run(m, effects).is_text_selected == m.is_text_selected,
        run(m, effects).info == (match last_written(effects, Channel::Info) {
            Some(v) => Some(v),
            None => m.info,
        }),
        run(m, effects).error == (match last_written(effects, Channel::Error) {
            Some(v) => Some(v),
            None => m.error,
        }),
        run(m, effects).insertions == m.insertions + inserted(effects),
        run(m, effects).full_text == slot_after(m.full_text, last_written(effects, Channel::FullText)),
        run(m, effects).text == slot_after(m.text, last_written(effects, Channel::Text)),
        run(m, effects).selection == slot_after(m.selection, last_written(effects, Channel::Selection)),
    decreases effects.len(),
{
    if effects.len() == 0 {
        assert(m.insertions + inserted(effects) =~= m.insertions);
    } else {
        lemma_run_effects(m, effects.drop_last());
        let prev = inserted(effects.drop_last());
        match effects.last() {
            PayloadEffect::Insert(s) => {
                assert(m.insertions + prev.push(s) =~= (m.insertions + prev).push(s));
            },
            _ => {},
        }
    }
}

/// A script with no side effects leaves nothing to replace, whatever the text
/// and selection.
pub proof fn lemma_no_effects_no_op(full_text: Seq<char>, selection: Option<Seq<char>>)
    ensures
        resolve(run(begin(full_text, selection), Seq::empty())) == ReplacementModel::NoOp,
{
}

/// A call whose script has no side effects yields the same status each time:
/// the start of a call does not depend on anything the previous call left.
pub proof fn lemma_side_effect_free_repeatable(full_text: Seq<char>, selection: Option<Seq<char>>)
    ensures
        run(begin(full_text, selection), Seq::empty()) == begin(full_text, selection),
{
}

/// Where a script inserted anything, the insertions win, in call order,
/// whatever else it wrote.
pub proof fn lemma_insertion_wins(
    full_text: Seq<char>,
    selection: Option<Seq<char>>,
    effects: Seq<PayloadEffect>,
)
    requires
        inserted(effects).len() > 0,
    ensures
        resolve(run(begin(full_text, selection), effects)) == ReplacementModel::Insert(inserted(effects)),
{
    lemma_run_effects(begin(full_text, selection), effects);
    assert(Seq::<Seq<char>>::empty() + inserted(effects) =~= inserted(effects));
}

/// Without insertions, a write to `fullText` wins over writes to `selection`
/// and `text`: the full text is replaced by its last written value.
pub proof fn lemma_full_text_wins(
    full_text: Seq<char>,
    selection: Option<Seq<char>>,
    effects: Seq<PayloadEffect>,
    value: Seq<char>,
)
    requires
        inserted(effects).len() == 0,
        last_written(effects, Channel::FullText) == Some(value),
    ensures
        resolve(run(begin(full_text, selection), effects)) == ReplacementModel::Full(value),
{
    lemma_run_effects(begin(full_text, selection), effects);
}

/// A script that writes only `text` replaces the selection where a non-empty
/// selection was given, and the full text otherwise.
pub proof fn lemma_text_follows_selection(
    full_text: Seq<char>,
    selection: Option<Seq<char>>,
    effects: Seq<PayloadEffect>,
    value: Seq<char>,
)
    requires
        inserted(effects).len() == 0,
        last_written(effects, Channel::FullText) is None,
        last_written(effects, Channel::Selection) is None,
        last_written(effects, Channel::Text) == Some(value),
    ensures
        resolve(run(begin(full_text, selection), effects)) == (if selection is Some
            && selection->0.len() > 0 {
            ReplacementModel::Selection(value)
        } else {
            ReplacementModel::Full(value)
        }),
{
    lemma_run_effects(begin(full_text, selection), effects);
}

/// Messages posted before a script stops (by returning or by throwing) stay in
/// the status: the error is the last one posted.
pub proof fn lemma_posted_error_kept(
    full_text: Seq<char>,
    selection: Option<Seq<char>>,
    effects: Seq<PayloadEffect>,
)
    ensures
        run(begin(full_text, selection), effects).error == last_written(effects, Channel::Error),
        run(begin(full_text, selection), effects).info == last_written(effects, Channel::Info),
{
    lemma_run_effects(begin(full_text, selection), effects);
}

} // verus!
