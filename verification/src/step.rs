//! Operations as sequences of steps.
//!
//! An operation of the engine is a [`Step`]: either a call that is due,
//! together with what the library will do with the answer, or the finished
//! result. The host performs the call and resumes with the answer, until the
//! step is `Done`. What each answer leads to is fixed by the `resume`
//! functions below, and stated over the views of the steps.

use crate::call::{Effect, EffectView, Source, SourceView, Spelling, SpellingView};
use crate::code::{
    fragment_views, nul_free, terminated, text_of, with_end, CUtf8, Fragment, FragmentView,
};
use crate::engine::RebEngine;
use crate::error::{ErrorView, RebError};
use crate::value::RebValue;
use vstd::prelude::*;
use vstd::string::*;

verus! {

/// The text fragment `'name`: the word `name`, quoted for the evaluator.
pub open spec fn quoted_word(name: &str) -> FragmentView {
    FragmentView::Text(seq![0x27u8] + name.spec_bytes())
}

/// Builds an ASCII keyword of the protocol as a text fragment.
pub(crate) fn keyword(s: &str) -> (r: Fragment)
    requires
        is_ascii(s),
        forall|i: int| 0 <= i < s@.len() ==> s@[i] != '\0',
    ensures
        r@ == text_of(s),
{
    proof {
        is_ascii_spec_bytes(s);
    }
    Fragment::Text(CUtf8::new(s))
}

/// Builds the fragment `'name`.
pub(crate) fn quote(name: &str) -> (r: Fragment)
    requires
        nul_free(name.spec_bytes()),
    ensures
        r@ == quoted_word(name),
{
    let mut text: Vec<u8> = Vec::new();
    text.push(0x27u8);
    text.extend_from_slice(name.as_bytes());
    assert(text@ =~= seq![0x27u8] + name.spec_bytes());
    Fragment::Text(CUtf8::from_text(text.as_slice()))
}

/// The fields of an error value that decoding reads, in the order in which
/// it reads them.
#[derive(Clone, Copy, Debug, PartialEq, Eq)]
pub enum ErrorField {
    Type,
    Id,
    Message,
    File,
}

impl ErrorField {
    /// The quoted word that selects the field.
    pub open spec fn word(self) -> FragmentView {
        match self {
            ErrorField::Type => quoted_word("type"),
            ErrorField::Id => quoted_word("id"),
            ErrorField::Message => quoted_word("message"),
            ErrorField::File => quoted_word("file"),
        }
    }

    /// Whether the field is spelled by the `Q` entry point. The message is
    /// free text and is spelled plainly; the others are identifier-like.
    pub open spec fn quoted(self) -> bool {
        !(self is Message)
    }

    /// The field that is read after this one, if any.
    pub open spec fn following(self) -> Option<ErrorField> {
        match self {
            ErrorField::Type => Some(ErrorField::Id),
            ErrorField::Id => Some(ErrorField::Message),
            ErrorField::Message => Some(ErrorField::File),
            ErrorField::File => None,
        }
    }

    fn selector(self) -> (r: Fragment)
        ensures
            r@ == self.word(),
    {
        proof {
            reveal_strlit("type");
            reveal_strlit("id");
            reveal_strlit("message");
            reveal_strlit("file");
            is_ascii_spec_bytes("type");
            is_ascii_spec_bytes("id");
            is_ascii_spec_bytes("message");
            is_ascii_spec_bytes("file");
        }
        match self {
            ErrorField::Type => quote("type"),
            ErrorField::Id => quote("id"),
            ErrorField::Message => quote("message"),
            ErrorField::File => quote("file"),
        }
    }

    fn is_quoted(self) -> (r: bool)
        ensures
            r == self.quoted(),
    {
        match self {
            ErrorField::Message => false,
            _ => true,
        }
    }

    fn next(self) -> (r: Option<ErrorField>)
        ensures
            r == self.following(),
    {
        match self {
            ErrorField::Type => Some(ErrorField::Id),
            ErrorField::Id => Some(ErrorField::Message),
            ErrorField::Message => Some(ErrorField::File),
            ErrorField::File => None,
        }
    }
}

/// An error value in the course of being decoded.
pub(crate) struct Draft {
    error: usize,
    keep: bool,
    type_: String,
    id: String,
    message: String,
    file: String,
}

/// An error value in the course of being decoded: what has been read of it.
pub struct DraftView {
    /// The handle of the error value.
    pub error: usize,
    /// Whether the error value stays with the caller. Where it does not, its
    /// reference is released once the last field has been read.
    pub keep: bool,
    pub type_: Seq<char>,
    pub id: Seq<char>,
    pub message: Seq<char>,
    pub file: Seq<char>,
}

impl DraftView {
    /// The draft for the error value `error`, with no field read yet.
    pub open spec fn blank(error: usize, keep: bool) -> DraftView {
        DraftView {
            error,
            keep,
            type_: Seq::empty(),
            id: Seq::empty(),
            message: Seq::empty(),
            file: Seq::empty(),
        }
    }

    /// The draft with `text` stored as the spelling of `field`.
    pub open spec fn put(self, field: ErrorField, text: Seq<char>) -> DraftView {
        match field {
            ErrorField::Type => DraftView { type_: text, ..self },
            ErrorField::Id => DraftView { id: text, ..self },
            ErrorField::Message => DraftView { message: text, ..self },
            ErrorField::File => DraftView { file: text, ..self },
        }
    }

    /// The decoded error.
    pub open spec fn finished(self) -> ErrorView {
        ErrorView::decoded(self.type_, self.id, self.message, self.file)
    }

    /// The call that fetches `field` of the error value.
    pub open spec fn fetch(self, field: ErrorField) -> StepView {
        StepView::Value(
            SourceView::Value(
                with_end(
                    seq![text_of("get in"), FragmentView::Value(self.error), field.word()],
                ),
            ),
            AfterValueView::Field { field, draft: self },
        )
    }
}

impl View for Draft {
    type V = DraftView;

    closed spec fn view(&self) -> DraftView {
        DraftView {
            error: self.error,
            keep: self.keep,
            type_: self.type_@,
            id: self.id@,
            message: self.message@,
            file: self.file@,
        }
    }
}

impl Draft {
    pub(crate) fn blank(error: usize, keep: bool) -> (r: Draft)
        ensures
            r@ == DraftView::blank(error, keep),
    {
        Draft {
            error,
            keep,
            type_: String::new(),
            id: String::new(),
            message: String::new(),
            file: String::new(),
        }
    }

    fn put(self, field: ErrorField, text: String) -> (r: Draft)
        ensures
            r@ == self@.put(field, text@),
    {
        let mut draft = self;
        match field {
            ErrorField::Type => {
                draft.type_ = text;
            },
            ErrorField::Id => {
                draft.id = text;
            },
            ErrorField::Message => {
                draft.message = text;
            },
            ErrorField::File => {
                draft.file = text;
            },
        }
        draft
    }

    fn finish(self) -> (r: RebError)
        ensures
            r@ == self@.finished(),
    {
        RebError::from_fields(self.type_, self.id, self.message, self.file)
    }

    pub(crate) fn fetch<'a>(self, field: ErrorField) -> (r: Step<'a>)
        ensures
            r@ == self@.fetch(field),
    {
        proof {
            reveal_strlit("get in");
        }
        let list = vec![
            keyword("get in"),
            Fragment::Value(self.error),
            field.selector(),
            Fragment::End,
        ];
        assert(fragment_views(list@) =~= with_end(
            seq![text_of("get in"), FragmentView::Value(self.error), field.word()],
        ));
        Step::Value(
            Source::Value(list),
            AfterValue { stage: ValueStage::Field { field, draft: self } },
        )
    }
}

/// How an operation ended.
pub enum Outcome<'a> {
    /// Nothing to return.
    Nothing,
    /// The value that the operation yields.
    Value(RebValue<'a>),
    /// The error value that a trapped evaluation raised, not decoded.
    Raised(RebValue<'a>),
    /// The error that a trapped evaluation raised, decoded.
    Failed(RebError),
    /// The spelling of a value.
    Text(String),
}

/// What an [`Outcome`] stands for.
pub enum OutcomeView {
    Nothing,
    Value(usize),
    Raised(usize),
    Failed(ErrorView),
    Text(Seq<char>),
}

impl<'a> View for Outcome<'a> {
    type V = OutcomeView;

    open spec fn view(&self) -> OutcomeView {
        match self {
            Outcome::Nothing => OutcomeView::Nothing,
            Outcome::Value(v) => OutcomeView::Value(v.handle()),
            Outcome::Raised(v) => OutcomeView::Raised(v.handle()),
            Outcome::Failed(e) => OutcomeView::Failed(e@),
            Outcome::Text(s) => OutcomeView::Text(s@),
        }
    }
}

enum ValueStage<'a> {
    Wrap(&'a RebEngine),
    Trapped { engine: &'a RebEngine, decode: bool },
    Loaded(&'a RebEngine),
    First { engine: &'a RebEngine, outer: usize },
    Field { field: ErrorField, draft: Draft },
}

enum FlagStage<'a> {
    IsError { engine: &'a RebEngine, trapped: usize, decode: bool, unwrap: bool },
    IsBlock { engine: &'a RebEngine, trapped: usize },
}

enum TextStage {
    Return,
    Field { value: usize, field: ErrorField, draft: Draft },
}

enum EffectStage<'a> {
    Nothing,
    Deliver(RebValue<'a>),
    FieldDone { field: ErrorField, draft: Draft },
    Decoded(RebError),
}

/// What the library does with the answer to a [`Source`]. Only the library
/// makes one, so a value comes to be only from a handle that the runtime
/// answered with.
pub struct AfterValue<'a> {
    stage: ValueStage<'a>,
}

/// What the library does with the answer to a predicate.
pub struct AfterFlag<'a> {
    stage: FlagStage<'a>,
}

/// What the library does with the answer to a [`Spelling`].
pub struct AfterText {
    stage: TextStage,
}

/// What the library does once an [`Effect`] has been performed.
pub struct AfterEffect<'a> {
    stage: EffectStage<'a>,
}

/// An operation in progress, or finished.
pub enum Step<'a> {
    Value(Source, AfterValue<'a>),
    Did(Vec<Fragment>, AfterFlag<'a>),
    Spell(Spelling, AfterText),
    Effect(Effect, AfterEffect<'a>),
    Done(Outcome<'a>),
}

/// What follows the handle that a [`Source`] is answered with.
pub enum AfterValueView {
    /// The value is the result.
    Wrap,
    /// The value is what a trapped evaluation returned: an error value, or
    /// the result in a block. `decode` says whether an error is decoded or
    /// handed out as it is.
    Trapped { decode: bool },
    /// The value is what a plain evaluation of source text returned.
    Loaded,
    /// The value is the first element of the block `outer`.
    First { outer: usize },
    /// The value is the field `field` of the error being decoded.
    Field { field: ErrorField, draft: DraftView },
}

/// What follows the flag that a predicate is answered with.
pub enum AfterFlagView {
    /// The flag says whether `trapped` is an error value. `unwrap` says
    /// whether a result that is no error comes in a block.
    IsError { trapped: usize, decode: bool, unwrap: bool },
    /// The flag says whether `trapped` is a block.
    IsBlock { trapped: usize },
}

/// What follows the text that a [`Spelling`] is answered with.
pub enum AfterTextView {
    /// The text is the result.
    Return,
    /// The text is the spelling of `field`, whose value is `value`.
    Field { value: usize, field: ErrorField, draft: DraftView },
}

/// What follows an [`Effect`].
pub enum AfterEffectView {
    /// Nothing.
    Nothing,
    /// The value is the result.
    Deliver(usize),
    /// The value of `field` has been released.
    FieldDone { field: ErrorField, draft: DraftView },
    /// The error value has been released.
    Decoded(ErrorView),
}

/// What a [`Step`] stands for.
pub enum StepView {
    Value(SourceView, AfterValueView),
    Did(Seq<FragmentView>, AfterFlagView),
    Spell(SpellingView, AfterTextView),
    Effect(EffectView, AfterEffectView),
    Done(OutcomeView),
}

impl<'a> View for AfterValue<'a> {
    type V = AfterValueView;

    closed spec fn view(&self) -> AfterValueView {
        match self.stage {
            ValueStage::Wrap(_) => AfterValueView::Wrap,
            ValueStage::Trapped { engine: _, decode } => AfterValueView::Trapped { decode },
            ValueStage::Loaded(_) => AfterValueView::Loaded,
            ValueStage::First { engine: _, outer } => AfterValueView::First { outer },
            ValueStage::Field { field, draft } => AfterValueView::Field { field, draft: draft@ },
        }
    }
}

impl<'a> View for AfterFlag<'a> {
    type V = AfterFlagView;

    closed spec fn view(&self) -> AfterFlagView {
        match self.stage {
            FlagStage::IsError { engine: _, trapped, decode, unwrap } => AfterFlagView::IsError {
                trapped,
                decode,
                unwrap,
            },
            FlagStage::IsBlock { engine: _, trapped } => AfterFlagView::IsBlock { trapped },
        }
    }
}

impl View for AfterText {
    type V = AfterTextView;

    closed spec fn view(&self) -> AfterTextView {
        match self.stage {
            TextStage::Return => AfterTextView::Return,
            TextStage::Field { value, field, draft } => AfterTextView::Field {
                value,
                field,
                draft: draft@,
            },
        }
    }
}

impl<'a> View for AfterEffect<'a> {
    type V = AfterEffectView;

    closed spec fn view(&self) -> AfterEffectView {
        match self.stage {
            EffectStage::Nothing => AfterEffectView::Nothing,
            EffectStage::Deliver(v) => AfterEffectView::Deliver(v.handle()),
            EffectStage::FieldDone { field, draft } => AfterEffectView::FieldDone {
                field,
                draft: draft@,
            },
            EffectStage::Decoded(e) => AfterEffectView::Decoded(e@),
        }
    }
}

impl<'a> View for Step<'a> {
    type V = StepView;

    open spec fn view(&self) -> StepView {
        match self {
            Step::Value(source, then) => StepView::Value(source@, then@),
            Step::Did(list, then) => StepView::Did(fragment_views(list@), then@),
            Step::Spell(spelling, then) => StepView::Spell(spelling@, then@),
            Step::Effect(effect, then) => StepView::Effect(effect@, then@),
            Step::Done(outcome) => StepView::Done(outcome@),
        }
    }
}

/// The predicate call `word value`.
pub open spec fn ask(word: &str, value: usize, then: AfterFlagView) -> StepView {
    StepView::Did(with_end(seq![text_of(word), FragmentView::Value(value)]), then)
}

impl StepView {
    /// The fragment list of the call that is due, where it takes one.
    pub open spec fn due_list(self) -> Option<Seq<FragmentView>> {
        match self {
            StepView::Value(SourceView::Value(list), _) => Some(list),
            StepView::Value(SourceView::ValueQ(list), _) => Some(list),
            StepView::Did(list, _) => Some(list),
            StepView::Spell(SpellingView::Spell(list), _) => Some(list),
            StepView::Spell(SpellingView::SpellQ(list), _) => Some(list),
            StepView::Effect(EffectView::Elide(list), _) => Some(list),
            _ => None,
        }
    }

    /// Whether the call that is due hands the evaluator a list that the end
    /// marker closes.
    pub open spec fn well_terminated(self) -> bool {
        match self.due_list() {
            Some(list) => terminated(list),
            None => true,
        }
    }

    /// The first step of making a value from `source`, which is the result.
    pub open spec fn make(source: SourceView) -> StepView {
        StepView::Value(source, AfterValueView::Wrap)
    }

    /// The first step of evaluating `list` inside a trap.
    pub open spec fn entrap(list: Seq<FragmentView>, decode: bool) -> StepView {
        StepView::Value(
            SourceView::Value(with_end(seq![text_of("entrap [")] + list + seq![text_of("]")])),
            AfterValueView::Trapped { decode },
        )
    }

    /// The first step of evaluating one fragment inside a trap, with errors
    /// decoded.
    pub open spec fn value1(a: FragmentView) -> StepView {
        StepView::entrap(seq![a], true)
    }

    /// The first step of evaluating two fragments inside a trap, with errors
    /// handed out as they are.
    pub open spec fn value2(a: FragmentView, b: FragmentView) -> StepView {
        StepView::entrap(seq![a, b], false)
    }

    /// The first step of evaluating three fragments with no trap.
    pub open spec fn value3(a: FragmentView, b: FragmentView, c: FragmentView) -> StepView {
        StepView::make(SourceView::Value(with_end(seq![a, b, c])))
    }

    /// The first step of evaluating the source text `code` with no trap.
    pub open spec fn load(code: Seq<u8>) -> StepView {
        StepView::Value(
            SourceView::ValueQ(with_end(seq![FragmentView::Text(code)])),
            AfterValueView::Loaded,
        )
    }

    /// The first step of fetching the field selected by `word` from `value`.
    pub open spec fn get_in(value: usize, word: FragmentView) -> StepView {
        StepView::make(
            SourceView::Value(
                with_end(seq![text_of("get in"), FragmentView::Value(value), word]),
            ),
        )
    }

    /// The only step of evaluating one fragment for its effect.
    pub open spec fn elide(t: FragmentView) -> StepView {
        StepView::Effect(EffectView::Elide(with_end(seq![t])), AfterEffectView::Nothing)
    }

    /// The only step of spelling the value `handle`.
    pub open spec fn spell(handle: usize, quoted: bool) -> StepView {
        StepView::Spell(SpellingView::of(handle, quoted), AfterTextView::Return)
    }

    /// The only step of releasing the reference `handle`.
    pub open spec fn release(handle: usize) -> StepView {
        StepView::Effect(EffectView::Release(handle), AfterEffectView::Nothing)
    }

    /// The first step of decoding the error value `error`, which the caller
    /// keeps.
    pub open spec fn decode(error: usize) -> StepView {
        DraftView::blank(error, true).fetch(ErrorField::Type)
    }
}

impl AfterValueView {
    /// The step that follows when the runtime answers with `handle`.
    pub open spec fn resume(self, handle: usize) -> StepView {
        match self {
            AfterValueView::Wrap => StepView::Done(OutcomeView::Value(handle)),
            AfterValueView::Trapped { decode } => ask(
                "error?",
                handle,
                AfterFlagView::IsError { trapped: handle, decode, unwrap: true },
            ),
            AfterValueView::Loaded => ask(
                "error?",
                handle,
                AfterFlagView::IsError { trapped: handle, decode: true, unwrap: false },
            ),
            AfterValueView::First { outer } => StepView::Effect(
                EffectView::Release(outer),
                AfterEffectView::Deliver(handle),
            ),
            AfterValueView::Field { field, draft } => StepView::Spell(
                SpellingView::of(handle, field.quoted()),
                AfterTextView::Field { value: handle, field, draft },
            ),
        }
    }
}

impl AfterFlagView {
    /// The step that follows when the runtime answers with `flag`.
    pub open spec fn resume(self, flag: bool) -> StepView {
        match self {
            AfterFlagView::IsError { trapped, decode, unwrap } => {
                if flag {
                    if decode {
                        DraftView::blank(trapped, false).fetch(ErrorField::Type)
                    } else {
                        StepView::Done(OutcomeView::Raised(trapped))
                    }
                } else {
                    if unwrap {
                        ask("block?", trapped, AfterFlagView::IsBlock { trapped })
                    } else {
                        StepView::Done(OutcomeView::Value(trapped))
                    }
                }
            },
            AfterFlagView::IsBlock { trapped } => {
                if flag {
                    StepView::Value(
                        SourceView::Value(
                            with_end(seq![text_of("first"), FragmentView::Value(trapped)]),
                        ),
                        AfterValueView::First { outer: trapped },
                    )
                } else {
                    StepView::Done(OutcomeView::Value(trapped))
                }
            },
        }
    }
}

impl AfterTextView {
    /// The step that follows when the runtime answers with `text`.
    pub open spec fn resume(self, text: Seq<char>) -> StepView {
        match self {
            AfterTextView::Return => StepView::Done(OutcomeView::Text(text)),
            AfterTextView::Field { value, field, draft } => StepView::Effect(
                EffectView::Release(value),
                AfterEffectView::FieldDone { field, draft: draft.put(field, text) },
            ),
        }
    }
}

impl AfterEffectView {
    /// The step that follows once the effect has been performed.
    pub open spec fn resume(self) -> StepView {
        match self {
            AfterEffectView::Nothing => StepView::Done(OutcomeView::Nothing),
            AfterEffectView::Deliver(value) => StepView::Done(OutcomeView::Value(value)),
            AfterEffectView::FieldDone { field, draft } => match field.following() {
                Some(next) => draft.fetch(next),
                None => if draft.keep {
                    StepView::Done(OutcomeView::Failed(draft.finished()))
                } else {
                    StepView::Effect(
                        EffectView::Release(draft.error),
                        AfterEffectView::Decoded(draft.finished()),
                    )
                },
            },
            AfterEffectView::Decoded(error) => StepView::Done(OutcomeView::Failed(error)),
        }
    }
}

/// Builds the predicate call `word value`.
fn question<'a>(word: &str, value: usize, then: AfterFlag<'a>) -> (r: Step<'a>)
    requires
        is_ascii(word),
        forall|i: int| 0 <= i < word@.len() ==> word@[i] != '\0',
    ensures
        r@ == ask(word, value, then@),
{
    let list = vec![keyword(word), Fragment::Value(value), Fragment::End];
    assert(fragment_views(list@) =~= with_end(seq![text_of(word), FragmentView::Value(value)]));
    Step::Did(list, then)
}

impl<'a> AfterValue<'a> {
    pub(crate) fn wrap(engine: &'a RebEngine) -> (r: AfterValue<'a>)
        ensures
            r@ == AfterValueView::Wrap,
    {
        AfterValue { stage: ValueStage::Wrap(engine) }
    }

    pub(crate) fn trapped(engine: &'a RebEngine, decode: bool) -> (r: AfterValue<'a>)
        ensures
            r@ == (AfterValueView::Trapped { decode }),
    {
        AfterValue { stage: ValueStage::Trapped { engine, decode } }
    }

    pub(crate) fn loaded(engine: &'a RebEngine) -> (r: AfterValue<'a>)
        ensures
            r@ == AfterValueView::Loaded,
    {
        AfterValue { stage: ValueStage::Loaded(engine) }
    }

    /// Takes the handle that the runtime answered with.
    pub fn resume(self, handle: usize) -> (r: Step<'a>)
        ensures
            r@ == self@.resume(handle),
    {
        proof {
            reveal_strlit("error?");
        }
        match self.stage {
            ValueStage::Wrap(engine) => Step::Done(
                Outcome::Value(RebValue::from_raw(engine, handle)),
            ),
            ValueStage::Trapped { engine, decode } => question(
                "error?",
                handle,
                AfterFlag {
                    stage: FlagStage::IsError { engine, trapped: handle, decode, unwrap: true },
                },
            ),
            ValueStage::Loaded(engine) => question(
                "error?",
                handle,
                AfterFlag {
                    stage: FlagStage::IsError {
                        engine,
                        trapped: handle,
                        decode: true,
                        unwrap: false,
                    },
                },
            ),
            ValueStage::First { engine, outer } => Step::Effect(
                Effect::Release(outer),
                AfterEffect { stage: EffectStage::Deliver(RebValue::from_raw(engine, handle)) },
            ),
            ValueStage::Field { field, draft } => Step::Spell(
                Spelling::of(handle, field.is_quoted()),
                AfterText { stage: TextStage::Field { value: handle, field, draft } },
            ),
        }
    }
}

impl<'a> AfterFlag<'a> {
    /// Takes the flag that the runtime answered with.
    pub fn resume(self, flag: bool) -> (r: Step<'a>)
        ensures
            r@ == self@.resume(flag),
    {
        proof {
            reveal_strlit("block?");
            reveal_strlit("first");
        }
        match self.stage {
            FlagStage::IsError { engine, trapped, decode, unwrap } => {
                if flag {
                    if decode {
                        Draft::blank(trapped, false).fetch(ErrorField::Type)
                    } else {
                        Step::Done(Outcome::Raised(RebValue::from_raw(engine, trapped)))
                    }
                } else {
                    if unwrap {
                        question(
                            "block?",
                            trapped,
                            AfterFlag { stage: FlagStage::IsBlock { engine, trapped } },
                        )
                    } else {
                        Step::Done(Outcome::Value(RebValue::from_raw(engine, trapped)))
                    }
                }
            },
            FlagStage::IsBlock { engine, trapped } => {
                if flag {
                    let list = vec![keyword("first"), Fragment::Value(trapped), Fragment::End];
                    assert(fragment_views(list@) =~= with_end(
                        seq![text_of("first"), FragmentView::Value(trapped)],
                    ));
                    Step::Value(
                        Source::Value(list),
                        AfterValue { stage: ValueStage::First { engine, outer: trapped } },
                    )
                } else {
                    Step::Done(Outcome::Value(RebValue::from_raw(engine, trapped)))
                }
            },
        }
    }
}

impl AfterText {
    pub(crate) fn give() -> (r: AfterText)
        ensures
            r@ == AfterTextView::Return,
    {
        AfterText { stage: TextStage::Return }
    }

    /// Takes the text that the runtime answered with.
    pub fn resume<'a>(self, text: String) -> (r: Step<'a>)
        ensures
            r@ == self@.resume(text@),
    {
        match self.stage {
            TextStage::Return => Step::Done(Outcome::Text(text)),
            TextStage::Field { value, field, draft } => Step::Effect(
                Effect::Release(value),
                AfterEffect { stage: EffectStage::FieldDone { field, draft: draft.put(field, text) } },
            ),
        }
    }
}

impl<'a> AfterEffect<'a> {
    pub(crate) fn nothing() -> (r: AfterEffect<'a>)
        ensures
            r@ == AfterEffectView::Nothing,
    {
        AfterEffect { stage: EffectStage::Nothing }
    }

    /// Goes on once the effect has been performed.
    pub fn resume(self) -> (r: Step<'a>)
        ensures
            r@ == self@.resume(),
    {
        match self.stage {
            EffectStage::Nothing => Step::Done(Outcome::Nothing),
            EffectStage::Deliver(value) => Step::Done(Outcome::Value(value)),
            EffectStage::FieldDone { field, draft } => match field.next() {
                Some(next) => draft.fetch(next),
                None => {
                    if draft.keep {
                        Step::Done(Outcome::Failed(draft.finish()))
                    } else {
                        let error = draft.error;
                        Step::Effect(
                            Effect::Release(error),
                            AfterEffect { stage: EffectStage::Decoded(draft.finish()) },
                        )
                    }
                },
            },
            EffectStage::Decoded(error) => Step::Done(Outcome::Failed(error)),
        }
    }
}

} // verus!
