//! Whole runs of an operation, and what holds of every run.
//!
//! A run feeds a step the runtime's answers one after the other. The laws
//! below speak of all runs: whatever the runtime answers, every reference
//! that it hands to the library is either passed on in the result or
//! released, once.

use crate::call::{EffectView, SpellingView};
use crate::code::FragmentView;
use crate::error::ErrorView;
use crate::step::{
    AfterEffectView, AfterFlagView, AfterTextView, AfterValueView, DraftView, ErrorField,
    OutcomeView, StepView,
};
use vstd::multiset::Multiset;
use vstd::prelude::*;

verus! {

/// One answer of the runtime.
pub enum Reply {
    /// The handle of a value.
    Value(usize),
    /// The answer to a predicate.
    Flag(bool),
    /// The spelling of a value.
    Text(Seq<char>),
    /// An effect has been performed.
    Unit,
}

impl DraftView {
    /// The references that a decoding in progress has to give up.
    pub open spec fn held(self) -> Multiset<usize> {
        if self.keep {
            Multiset::empty()
        } else {
            Multiset::singleton(self.error)
        }
    }
}

impl OutcomeView {
    /// The references that the result passes on to the caller.
    pub open spec fn held(self) -> Multiset<usize> {
        match self {
            OutcomeView::Value(h) => Multiset::singleton(h),
            OutcomeView::Raised(h) => Multiset::singleton(h),
            _ => Multiset::empty(),
        }
    }
}

impl AfterValueView {
    pub open spec fn held(self) -> Multiset<usize> {
        match self {
            AfterValueView::First { outer } => Multiset::singleton(outer),
            AfterValueView::Field { field, draft } => draft.held(),
            _ => Multiset::empty(),
        }
    }
}

impl AfterFlagView {
    pub open spec fn held(self) -> Multiset<usize> {
        match self {
            AfterFlagView::IsError { trapped, decode, unwrap } => Multiset::singleton(trapped),
            AfterFlagView::IsBlock { trapped } => Multiset::singleton(trapped),
        }
    }
}

impl AfterTextView {
    pub open spec fn held(self) -> Multiset<usize> {
        match self {
            AfterTextView::Return => Multiset::empty(),
            AfterTextView::Field { value, field, draft } => draft.held().insert(value),
        }
    }
}

impl AfterEffectView {
    pub open spec fn held(self) -> Multiset<usize> {
        match self {
            AfterEffectView::Deliver(value) => Multiset::singleton(value),
            AfterEffectView::FieldDone { field, draft } => draft.held(),
            _ => Multiset::empty(),
        }
    }
}

impl StepView {
    /// Whether `reply` is an answer to the call that is due.
    pub open spec fn accepts(self, reply: Reply) -> bool {
        match (self, reply) {
            (StepView::Value(_, _), Reply::Value(_)) => true,
            (StepView::Did(_, _), Reply::Flag(_)) => true,
            (StepView::Spell(_, _), Reply::Text(_)) => true,
            (StepView::Effect(_, _), Reply::Unit) => true,
            _ => false,
        }
    }

    /// The step that follows the answer `reply`. A finished step, and a step
    /// given an answer of the wrong kind, stays as it is.
    pub open spec fn feed(self, reply: Reply) -> StepView {
        match (self, reply) {
            (StepView::Value(_, then), Reply::Value(handle)) => then.resume(handle),
            (StepView::Did(_, then), Reply::Flag(flag)) => then.resume(flag),
            (StepView::Spell(_, then), Reply::Text(text)) => then.resume(text),
            (StepView::Effect(_, then), Reply::Unit) => then.resume(),
            _ => self,
        }
    }

    /// The reference that the call that is due gives up, if it is a release.
    pub open spec fn releasing(self) -> Multiset<usize> {
        match self {
            StepView::Effect(EffectView::Release(h), _) => Multiset::singleton(h),
            _ => Multiset::empty(),
        }
    }

    /// The references that the operation is in charge of at this step: those
    /// it still has to release, and those that its result passes on.
    pub open spec fn held(self) -> Multiset<usize> {
        match self {
            StepView::Value(_, then) => then.held(),
            StepView::Did(_, then) => then.held(),
            StepView::Spell(_, then) => then.held(),
            StepView::Effect(_, then) => then.held().add(self.releasing()),
            StepView::Done(outcome) => outcome.held(),
        }
    }
}

impl Reply {
    /// The reference that the answer hands over, if it is a handle.
    pub open spec fn handing(self) -> Multiset<usize> {
        match self {
            Reply::Value(h) => Multiset::singleton(h),
            _ => Multiset::empty(),
        }
    }
}

/// The step reached from `step` by the answers `replies`, in order.
pub open spec fn run(step: StepView, replies: Seq<Reply>) -> StepView
    decreases replies.len(),
{
    if replies.len() == 0 {
        step
    } else {
        run(step, replies.drop_last()).feed(replies.last())
    }
}

/// Whether each of `replies` answers the call that is due when it comes.
pub open spec fn fitting(step: StepView, replies: Seq<Reply>) -> bool
    decreases replies.len(),
{
    if replies.len() == 0 {
        true
    } else {
        fitting(step, replies.drop_last()) && run(step, replies.drop_last()).accepts(
            replies.last(),
        )
    }
}

/// The references that the answers `replies` hand over.
pub open spec fn handed(replies: Seq<Reply>) -> Multiset<usize>
    decreases replies.len(),
{
    if replies.len() == 0 {
        Multiset::empty()
    } else {
        handed(replies.drop_last()).add(replies.last().handing())
    }
}

/// The references that the run from `step` over `replies` releases.
pub open spec fn released(step: StepView, replies: Seq<Reply>) -> Multiset<usize>
    decreases replies.len(),
{
    if replies.len() == 0 {
        Multiset::empty()
    } else {
        released(step, replies.drop_last()).add(run(step, replies.drop_last()).releasing())
    }
}

/// The kinds of outcome.
pub enum Ending {
    Nothing,
    Value,
    Raised,
    Failed,
    Text,
}

impl OutcomeView {
    /// The kind of this outcome.
    pub open spec fn ending(self) -> Ending {
        match self {
            OutcomeView::Nothing => Ending::Nothing,
            OutcomeView::Value(_) => Ending::Value,
            OutcomeView::Raised(_) => Ending::Raised,
            OutcomeView::Failed(_) => Ending::Failed,
            OutcomeView::Text(_) => Ending::Text,
        }
    }
}

/// The way in which a trapped error ends an operation: decoded, or as the
/// error value itself.
pub open spec fn error_ending(decode: bool) -> Ending {
    if decode {
        Ending::Failed
    } else {
        Ending::Raised
    }
}

/// The number of answers that reading `field` and the fields after it takes,
/// with the release of the error value where the caller does not keep it.
pub open spec fn decoding_cost(field: ErrorField, keep: bool) -> nat {
    let last: nat = if keep {
        0
    } else {
        1
    };
    match field {
        ErrorField::Type => 12 + last,
        ErrorField::Id => 9 + last,
        ErrorField::Message => 6 + last,
        ErrorField::File => 3 + last,
    }
}

impl StepView {
    /// Whether the operation may still end in an outcome of kind `ending`.
    pub open spec fn may_end_in(self, ending: Ending) -> bool {
        match self {
            StepView::Value(_, AfterValueView::Wrap) => ending is Value,
            StepView::Value(_, AfterValueView::Trapped { decode }) => ending is Value || ending
                == error_ending(decode),
            StepView::Value(_, AfterValueView::Loaded) => ending is Value || ending is Failed,
            StepView::Value(_, AfterValueView::First { .. }) => ending is Value,
            StepView::Value(_, AfterValueView::Field { .. }) => ending is Failed,
            StepView::Did(_, AfterFlagView::IsError { trapped, decode, unwrap }) => ending is Value
                || ending == error_ending(decode),
            StepView::Did(_, AfterFlagView::IsBlock { .. }) => ending is Value,
            StepView::Spell(_, AfterTextView::Return) => ending is Text,
            StepView::Spell(_, AfterTextView::Field { .. }) => ending is Failed,
            StepView::Effect(_, AfterEffectView::Nothing) => ending is Nothing,
            StepView::Effect(_, AfterEffectView::Deliver(_)) => ending is Value,
            StepView::Effect(_, AfterEffectView::FieldDone { .. }) => ending is Failed,
            StepView::Effect(_, AfterEffectView::Decoded(_)) => ending is Failed,
            StepView::Done(outcome) => ending == outcome.ending(),
        }
    }

    /// A bound on the number of answers that the operation still takes.
    pub open spec fn answers_left(self) -> nat {
        match self {
            StepView::Value(_, AfterValueView::Wrap) => 1,
            StepView::Value(_, AfterValueView::Trapped { decode }) => 16,
            StepView::Value(_, AfterValueView::Loaded) => 16,
            StepView::Value(_, AfterValueView::First { .. }) => 2,
            StepView::Value(_, AfterValueView::Field { field, draft }) => decoding_cost(
                field,
                draft.keep,
            ),
            StepView::Did(_, AfterFlagView::IsError { .. }) => 15,
            StepView::Did(_, AfterFlagView::IsBlock { .. }) => 3,
            StepView::Spell(_, AfterTextView::Return) => 1,
            StepView::Spell(_, AfterTextView::Field { value, field, draft }) => (decoding_cost(
                field,
                draft.keep,
            ) - 1) as nat,
            StepView::Effect(_, AfterEffectView::Nothing) => 1,
            StepView::Effect(_, AfterEffectView::Deliver(_)) => 1,
            StepView::Effect(_, AfterEffectView::FieldDone { field, draft }) => (decoding_cost(
                field,
                draft.keep,
            ) - 2) as nat,
            StepView::Effect(_, AfterEffectView::Decoded(_)) => 1,
            StepView::Done(_) => 0,
        }
    }
}

/// An answer never widens the ways in which an operation may end.
pub proof fn law_answer_keeps_promise(step: StepView, reply: Reply, ending: Ending)
    requires
        step.accepts(reply),
        step.feed(reply).may_end_in(ending),
    ensures
        step.may_end_in(ending),
{
}

/// An operation ends only as its first step promises. So an evaluation of
/// one fragment in a trap ends in a value or in a decoded error, one of two
/// fragments in a value or in the error value, and so on.
pub proof fn law_ends_as_promised(step: StepView, replies: Seq<Reply>, outcome: OutcomeView)
    requires
        fitting(step, replies),
        run(step, replies) == StepView::Done(outcome),
    ensures
        step.may_end_in(outcome.ending()),
    decreases replies.len(),
{
    if replies.len() > 0 {
        let before = replies.drop_last();
        law_answer_keeps_promise(run(step, before), replies.last(), outcome.ending());
        law_stays_promised(step, before, outcome.ending());
    }
}

/// What a run may end in after some answers, it may end in from its start.
pub proof fn law_stays_promised(step: StepView, replies: Seq<Reply>, ending: Ending)
    requires
        fitting(step, replies),
        run(step, replies).may_end_in(ending),
    ensures
        step.may_end_in(ending),
    decreases replies.len(),
{
    if replies.len() > 0 {
        let before = replies.drop_last();
        law_answer_keeps_promise(run(step, before), replies.last(), ending);
        law_stays_promised(step, before, ending);
    }
}

/// Every answer brings the end nearer.
pub proof fn law_answer_brings_end_nearer(step: StepView, reply: Reply)
    requires
        step.accepts(reply),
    ensures
        step.feed(reply).answers_left() < step.answers_left(),
{
}

/// Every operation comes to its end: no run takes more answers than the
/// bound of its first step, which is sixteen at most.
pub proof fn law_every_run_ends(step: StepView, replies: Seq<Reply>)
    requires
        fitting(step, replies),
    ensures
        replies.len() + run(step, replies).answers_left() <= step.answers_left(),
        step.answers_left() <= 16,
    decreases replies.len(),
{
    if replies.len() > 0 {
        let before = replies.drop_last();
        law_every_run_ends(step, before);
        law_answer_brings_end_nearer(run(step, before), replies.last());
    }
}

/// Whatever step an answer leads to, the call that is then due hands the
/// evaluator a list that the end marker closes.
pub proof fn law_answer_leads_to_closed_list(step: StepView, reply: Reply)
    requires
        step.accepts(reply),
    ensures
        step.feed(reply).well_terminated(),
{
    match (step, reply) {
        (StepView::Effect(_, AfterEffectView::FieldDone { field, draft }), Reply::Unit) => {
            match field.following() {
                Some(next) => {
                    assert(draft.fetch(next).well_terminated());
                },
                None => {},
            }
        },
        _ => {},
    }
}

/// Every call of a run hands the evaluator a list that the end marker
/// closes, where the first call does.
pub proof fn law_every_list_closed(step: StepView, replies: Seq<Reply>)
    requires
        step.well_terminated(),
        fitting(step, replies),
    ensures
        run(step, replies).well_terminated(),
{
    if replies.len() > 0 {
        law_answer_leads_to_closed_list(run(step, replies.drop_last()), replies.last());
    }
}

/// One answer keeps the account: what the step held, with what the answer
/// hands over, is what the call gave up, with what the next step holds.
pub proof fn law_step_keeps_account(step: StepView, reply: Reply)
    requires
        step.accepts(reply),
    ensures
        step.held().add(reply.handing()) =~= step.releasing().add(step.feed(reply).held()),
{
    broadcast use vstd::multiset::group_multiset_axioms;

    match (step, reply) {
        (StepView::Value(_, then), Reply::Value(handle)) => {
            match then {
                AfterValueView::Field { field, draft } => {},
                _ => {},
            }
        },
        (StepView::Did(_, then), Reply::Flag(flag)) => {},
        (StepView::Spell(_, then), Reply::Text(text)) => {
            match then {
                AfterTextView::Field { value, field, draft } => {
                    assert(draft.put(field, text).held() == draft.held());
                },
                _ => {},
            }
        },
        (StepView::Effect(_, then), Reply::Unit) => {},
        _ => {},
    }
}

/// Every reference is accounted for, whatever the runtime answers: over any
/// run, what the operation held at its start, with what the answers handed
/// over, is what the run released, with what the reached step holds. Counted
/// with multiplicity, so none is released twice and none is dropped.
pub proof fn law_references_accounted(step: StepView, replies: Seq<Reply>)
    requires
        fitting(step, replies),
    ensures
        step.held().add(handed(replies)) =~= released(step, replies).add(
            run(step, replies).held(),
        ),
    decreases replies.len(),
{
    broadcast use vstd::multiset::group_multiset_axioms;

    if replies.len() > 0 {
        let before = replies.drop_last();
        let reached = run(step, before);
        let last = replies.last();
        law_references_accounted(step, before);
        law_step_keeps_account(reached, last);
        assert forall|h: usize|
            step.held().add(handed(replies)).count(h) == released(step, replies).add(
                run(step, replies).held(),
            ).count(h) by {
            assert(step.held().add(handed(before)).count(h) == released(step, before).add(
                reached.held(),
            ).count(h));
            assert(reached.held().add(last.handing()).count(h) == reached.releasing().add(
                reached.feed(last).held(),
            ).count(h));
        }
    }
}

/// An operation that starts with no reference in its charge, and has come to
/// its end, has released every reference that the runtime handed to it, but
/// for what its result passes on to the caller: each of them once.
pub proof fn law_released_once(step: StepView, replies: Seq<Reply>, outcome: OutcomeView)
    requires
        fitting(step, replies),
        step.held() =~= Multiset::empty(),
        run(step, replies) == StepView::Done(outcome),
    ensures
        handed(replies) =~= released(step, replies).add(outcome.held()),
{
    broadcast use vstd::multiset::group_multiset_axioms;

    law_references_accounted(step, replies);
}

/// One more answer extends a run by one step.
pub proof fn lemma_run_push(step: StepView, replies: Seq<Reply>, reply: Reply)
    ensures
        run(step, replies.push(reply)) == run(step, replies).feed(reply),
        fitting(step, replies.push(reply)) == (fitting(step, replies) && run(
            step,
            replies,
        ).accepts(reply)),
{
    assert(replies.push(reply).drop_last() =~= replies);
}

/// A run over two lists of answers is the run over the second, from where
/// the run over the first has led.
pub proof fn lemma_run_concat(step: StepView, first: Seq<Reply>, second: Seq<Reply>)
    ensures
        run(step, first + second) == run(run(step, first), second),
        fitting(step, first + second) == (fitting(step, first) && fitting(
            run(step, first),
            second,
        )),
    decreases second.len(),
{
    if second.len() == 0 {
        assert(first + second =~= first);
    } else {
        lemma_run_concat(step, first, second.drop_last());
        assert((first + second).drop_last() =~= first + second.drop_last());
        assert((first + second).last() == second.last());
    }
}

/// The answers that reading one field takes: the handle of the field's
/// value, its spelling, and the release of the value.
pub open spec fn field_replies(value: usize, text: Seq<char>) -> Seq<Reply> {
    seq![Reply::Value(value), Reply::Text(text), Reply::Unit]
}

/// The answers that reading the four fields of an error takes.
pub open spec fn error_replies(
    type_: (usize, Seq<char>),
    id: (usize, Seq<char>),
    message: (usize, Seq<char>),
    file: (usize, Seq<char>),
) -> Seq<Reply> {
    field_replies(type_.0, type_.1) + field_replies(id.0, id.1) + field_replies(
        message.0,
        message.1,
    ) + field_replies(file.0, file.1)
}

/// Reading one field: the value is fetched, spelled by the entry point that
/// the field calls for, and released; the text is stored in the draft.
pub proof fn law_field_read(draft: DraftView, field: ErrorField, value: usize, text: Seq<char>)
    ensures
        fitting(draft.fetch(field), field_replies(value, text)),
        run(draft.fetch(field), seq![Reply::Value(value)]) == StepView::Spell(
            SpellingView::of(value, field.quoted()),
            AfterTextView::Field { value, field, draft },
        ),
        run(draft.fetch(field), seq![Reply::Value(value), Reply::Text(text)])
            == StepView::Effect(
            EffectView::Release(value),
            AfterEffectView::FieldDone { field, draft: draft.put(field, text) },
        ),
        run(draft.fetch(field), field_replies(value, text)) == (AfterEffectView::FieldDone {
            field,
            draft: draft.put(field, text),
        }).resume(),
{
    let start = draft.fetch(field);
    let r1 = seq![Reply::Value(value)];
    let r2 = r1.push(Reply::Text(text));
    let r3 = r2.push(Reply::Unit);
    assert(seq![Reply::Value(value), Reply::Text(text)] =~= r2);
    assert(field_replies(value, text) =~= r3);
    lemma_run_push(start, Seq::empty(), Reply::Value(value));
    lemma_run_push(start, r1, Reply::Text(text));
    lemma_run_push(start, r2, Reply::Unit);
}

/// Decoding reads type, id, message and file, in this order, and leaves the
/// other fields empty. It ends in the decoded error where the caller keeps
/// the error value, and else in the release of the error value.
pub proof fn law_decoding(
    error: usize,
    keep: bool,
    type_: (usize, Seq<char>),
    id: (usize, Seq<char>),
    message: (usize, Seq<char>),
    file: (usize, Seq<char>),
)
    ensures
        fitting(
            DraftView::blank(error, keep).fetch(ErrorField::Type),
            error_replies(type_, id, message, file),
        ),
        run(
            DraftView::blank(error, keep).fetch(ErrorField::Type),
            error_replies(type_, id, message, file),
        ) == (if keep {
            StepView::Done(
                OutcomeView::Failed(ErrorView::decoded(type_.1, id.1, message.1, file.1)),
            )
        } else {
            StepView::Effect(
                EffectView::Release(error),
                AfterEffectView::Decoded(ErrorView::decoded(type_.1, id.1, message.1, file.1)),
            )
        }),
{
    let d0 = DraftView::blank(error, keep);
    let d1 = d0.put(ErrorField::Type, type_.1);
    let d2 = d1.put(ErrorField::Id, id.1);
    let d3 = d2.put(ErrorField::Message, message.1);
    let start = d0.fetch(ErrorField::Type);
    let r1 = field_replies(type_.0, type_.1);
    let r2 = field_replies(id.0, id.1);
    let r3 = field_replies(message.0, message.1);
    let r4 = field_replies(file.0, file.1);
    law_field_read(d0, ErrorField::Type, type_.0, type_.1);
    law_field_read(d1, ErrorField::Id, id.0, id.1);
    law_field_read(d2, ErrorField::Message, message.0, message.1);
    law_field_read(d3, ErrorField::File, file.0, file.1);
    lemma_run_concat(start, r1, r2);
    lemma_run_concat(start, r1 + r2, r3);
    lemma_run_concat(start, r1 + r2 + r3, r4);
}

/// A trapped evaluation whose result is no error and comes in a block ends
/// in the block's first element; the block is released.
pub proof fn law_entrap_unwraps(
    list: Seq<FragmentView>,
    decode: bool,
    trapped: usize,
    inner: usize,
)
    ensures
        ({
            let replies = seq![
                Reply::Value(trapped),
                Reply::Flag(false),
                Reply::Flag(true),
                Reply::Value(inner),
                Reply::Unit,
            ];
            &&& fitting(StepView::entrap(list, decode), replies)
            &&& run(StepView::entrap(list, decode), replies) == StepView::Done(
                OutcomeView::Value(inner),
            )
            &&& released(StepView::entrap(list, decode), replies) =~= Multiset::singleton(trapped)
        }),
{
    broadcast use vstd::multiset::group_multiset_axioms;

    let start = StepView::entrap(list, decode);
    let r1 = seq![Reply::Value(trapped)];
    let r2 = r1.push(Reply::Flag(false));
    let r3 = r2.push(Reply::Flag(true));
    let r4 = r3.push(Reply::Value(inner));
    let r5 = r4.push(Reply::Unit);
    assert(seq![
        Reply::Value(trapped),
        Reply::Flag(false),
        Reply::Flag(true),
        Reply::Value(inner),
        Reply::Unit,
    ] =~= r5);
    lemma_run_push(start, Seq::empty(), Reply::Value(trapped));
    lemma_run_push(start, r1, Reply::Flag(false));
    lemma_run_push(start, r2, Reply::Flag(true));
    lemma_run_push(start, r3, Reply::Value(inner));
    lemma_run_push(start, r4, Reply::Unit);
    lemma_released_push(start, Seq::empty(), Reply::Value(trapped));
    lemma_released_push(start, r1, Reply::Flag(false));
    lemma_released_push(start, r2, Reply::Flag(true));
    lemma_released_push(start, r3, Reply::Value(inner));
    lemma_released_push(start, r4, Reply::Unit);
}

/// A trapped evaluation whose result is neither an error nor a block ends in
/// that result, and nothing is released.
pub proof fn law_entrap_passes(list: Seq<FragmentView>, decode: bool, trapped: usize)
    ensures
        ({
            let replies = seq![Reply::Value(trapped), Reply::Flag(false), Reply::Flag(false)];
            &&& fitting(StepView::entrap(list, decode), replies)
            &&& run(StepView::entrap(list, decode), replies) == StepView::Done(
                OutcomeView::Value(trapped),
            )
            &&& released(StepView::entrap(list, decode), replies) =~= Multiset::empty()
        }),
{
    broadcast use vstd::multiset::group_multiset_axioms;

    let start = StepView::entrap(list, decode);
    let r1 = seq![Reply::Value(trapped)];
    let r2 = r1.push(Reply::Flag(false));
    assert(seq![Reply::Value(trapped), Reply::Flag(false), Reply::Flag(false)] =~= r2.push(
        Reply::Flag(false),
    ));
    lemma_run_push(start, Seq::empty(), Reply::Value(trapped));
    lemma_run_push(start, r1, Reply::Flag(false));
    lemma_run_push(start, r2, Reply::Flag(false));
    lemma_released_push(start, Seq::empty(), Reply::Value(trapped));
    lemma_released_push(start, r1, Reply::Flag(false));
    lemma_released_push(start, r2, Reply::Flag(false));
}

/// A trapped evaluation that hands errors out as they are ends, on an
/// error, in the error value itself, and nothing is released.
pub proof fn law_entrap_raises(list: Seq<FragmentView>, trapped: usize)
    ensures
        ({
            let replies = seq![Reply::Value(trapped), Reply::Flag(true)];
            &&& fitting(StepView::entrap(list, false), replies)
            &&& run(StepView::entrap(list, false), replies) == StepView::Done(
                OutcomeView::Raised(trapped),
            )
            &&& released(StepView::entrap(list, false), replies) =~= Multiset::empty()
        }),
{
    broadcast use vstd::multiset::group_multiset_axioms;

    let start = StepView::entrap(list, false);
    let r1 = seq![Reply::Value(trapped)];
    assert(seq![Reply::Value(trapped), Reply::Flag(true)] =~= r1.push(Reply::Flag(true)));
    lemma_run_push(start, Seq::empty(), Reply::Value(trapped));
    lemma_run_push(start, r1, Reply::Flag(true));
    lemma_released_push(start, Seq::empty(), Reply::Value(trapped));
    lemma_released_push(start, r1, Reply::Flag(true));
}

/// A trapped evaluation that decodes errors ends, on an error, in the
/// decoded error, after the error value has been released.
pub proof fn law_entrap_decodes(
    list: Seq<FragmentView>,
    trapped: usize,
    type_: (usize, Seq<char>),
    id: (usize, Seq<char>),
    message: (usize, Seq<char>),
    file: (usize, Seq<char>),
)
    ensures
        ({
            let replies = seq![Reply::Value(trapped), Reply::Flag(true)] + error_replies(
                type_,
                id,
                message,
                file,
            ) + seq![Reply::Unit];
            &&& fitting(StepView::entrap(list, true), replies)
            &&& run(StepView::entrap(list, true), replies) == StepView::Done(
                OutcomeView::Failed(ErrorView::decoded(type_.1, id.1, message.1, file.1)),
            )
            &&& released(StepView::entrap(list, true), replies) =~= handed(replies)
        }),
{
    broadcast use vstd::multiset::group_multiset_axioms;

    let start = StepView::entrap(list, true);
    let head = seq![Reply::Value(trapped), Reply::Flag(true)];
    let body = error_replies(type_, id, message, file);
    let tail = seq![Reply::Unit];
    assert(head =~= seq![Reply::Value(trapped)].push(Reply::Flag(true)));
    lemma_run_push(start, Seq::empty(), Reply::Value(trapped));
    lemma_run_push(start, seq![Reply::Value(trapped)], Reply::Flag(true));
    law_decoding(trapped, false, type_, id, message, file);
    lemma_run_concat(start, head, body);
    lemma_run_push(run(start, head + body), Seq::empty(), Reply::Unit);
    lemma_run_concat(start, head + body, tail);
    law_released_once(
        start,
        head + body + tail,
        OutcomeView::Failed(ErrorView::decoded(type_.1, id.1, message.1, file.1)),
    );
}

/// An evaluation of source text with no trap ends in the result as it is,
/// where the result is no error value.
pub proof fn law_load_returns(code: Seq<u8>, value: usize)
    ensures
        ({
            let replies = seq![Reply::Value(value), Reply::Flag(false)];
            &&& fitting(StepView::load(code), replies)
            &&& run(StepView::load(code), replies) == StepView::Done(OutcomeView::Value(value))
            &&& released(StepView::load(code), replies) =~= Multiset::empty()
        }),
{
    broadcast use vstd::multiset::group_multiset_axioms;

    let start = StepView::load(code);
    let r1 = seq![Reply::Value(value)];
    assert(seq![Reply::Value(value), Reply::Flag(false)] =~= r1.push(Reply::Flag(false)));
    lemma_run_push(start, Seq::empty(), Reply::Value(value));
    lemma_run_push(start, r1, Reply::Flag(false));
    lemma_released_push(start, Seq::empty(), Reply::Value(value));
    lemma_released_push(start, r1, Reply::Flag(false));
}

/// An evaluation of source text with no trap ends in the decoded error,
/// where the result is an error value, after that value has been released.
pub proof fn law_load_decodes(
    code: Seq<u8>,
    value: usize,
    type_: (usize, Seq<char>),
    id: (usize, Seq<char>),
    message: (usize, Seq<char>),
    file: (usize, Seq<char>),
)
    ensures
        ({
            let replies = seq![Reply::Value(value), Reply::Flag(true)] + error_replies(
                type_,
                id,
                message,
                file,
            ) + seq![Reply::Unit];
            &&& fitting(StepView::load(code), replies)
            &&& run(StepView::load(code), replies) == StepView::Done(
                OutcomeView::Failed(ErrorView::decoded(type_.1, id.1, message.1, file.1)),
            )
            &&& released(StepView::load(code), replies) =~= handed(replies)
        }),
{
    broadcast use vstd::multiset::group_multiset_axioms;

    let start = StepView::load(code);
    let head = seq![Reply::Value(value), Reply::Flag(true)];
    let body = error_replies(type_, id, message, file);
    let tail = seq![Reply::Unit];
    assert(head =~= seq![Reply::Value(value)].push(Reply::Flag(true)));
    lemma_run_push(start, Seq::empty(), Reply::Value(value));
    lemma_run_push(start, seq![Reply::Value(value)], Reply::Flag(true));
    law_decoding(value, false, type_, id, message, file);
    lemma_run_concat(start, head, body);
    lemma_run_push(run(start, head + body), Seq::empty(), Reply::Unit);
    lemma_run_concat(start, head + body, tail);
    law_released_once(
        start,
        head + body + tail,
        OutcomeView::Failed(ErrorView::decoded(type_.1, id.1, message.1, file.1)),
    );
}

/// One more answer adds what the call that was due gave up.
proof fn lemma_released_push(step: StepView, replies: Seq<Reply>, reply: Reply)
    ensures
        released(step, replies.push(reply)) == released(step, replies).add(
            run(step, replies).releasing(),
        ),
{
    assert(replies.push(reply).drop_last() =~= replies);
}

} // verus!
