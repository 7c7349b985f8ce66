//! The engine: the one live runtime, and the operations that start on it.

use crate::call::{Effect, EffectView, Reading, ReadingView, Source, SourceView};
use crate::code::{
    fragment_views, nul_free, text_of, with_end, CUtf8, Fragment, FragmentView, RebCode,
};
use crate::lease::Lease;
use crate::step::{keyword, quote, quoted_word, AfterEffect, AfterValue, Step, StepView};
use crate::value::RebValue;
use vstd::prelude::*;
use vstd::string::*;

verus! {

/// The live runtime. Every value borrows the engine that made it, so no value
/// outlasts its runtime.
#[derive(Debug)]
pub struct RebEngine {
    sealed: (),
}

impl RebEngine {
    /// Takes the lease and returns the engine together with the call that
    /// starts the runtime. The lease must be free: to start a second runtime
    /// while one is active is a fatal misuse that the host has to rule out.
    pub fn new(lease: &mut Lease) -> (r: (RebEngine, Effect))
        requires
            !old(lease).active(),
        ensures
            final(lease).active(),
            r.1@ == EffectView::Startup,
    {
        let _ = lease.start();
        (RebEngine { sealed: () }, Effect::Startup)
    }

    /// Ends the engine: returns the call that shuts the runtime down with a
    /// full teardown, and frees the lease. The lease must be the active one
    /// that the engine was started under.
    pub fn shutdown(self, lease: &mut Lease) -> (r: Effect)
        requires
            old(lease).active(),
        ensures
            !final(lease).active(),
            r@ == EffectView::Shutdown(true),
    {
        let _ = lease.stop();
        Effect::Shutdown(true)
    }

    /// Asks for the runtime's count of evaluation steps.
    pub fn tick(&self) -> (r: Reading)
        ensures
            r@ == ReadingView::Tick,
    {
        Reading::Tick
    }

    /// Makes the void value.
    pub fn void<'a>(&'a self) -> (r: Step<'a>)
        ensures
            r@ == StepView::make(SourceView::Void),
    {
        Step::Value(Source::Void, AfterValue::wrap(self))
    }

    /// Makes the blank value.
    pub fn blank<'a>(&'a self) -> (r: Step<'a>)
        ensures
            r@ == StepView::make(SourceView::Blank),
    {
        Step::Value(Source::Blank, AfterValue::wrap(self))
    }

    /// Makes the character value for `v`.
    pub fn char<'a>(&'a self, v: char) -> (r: Step<'a>)
        ensures
            r@ == StepView::make(SourceView::Char(v as u32)),
    {
        Step::Value(Source::Char(v as u32), AfterValue::wrap(self))
    }

    /// Makes the integer value for `v`.
    pub fn integer<'a>(&'a self, v: i64) -> (r: Step<'a>)
        ensures
            r@ == StepView::make(SourceView::Integer(v)),
    {
        Step::Value(Source::Integer(v), AfterValue::wrap(self))
    }

    /// Makes the decimal value whose bits, in the binary64 interchange format,
    /// are `bits`. The number itself never enters the library.
    pub fn decimal<'a>(&'a self, bits: u64) -> (r: Step<'a>)
        ensures
            r@ == StepView::make(SourceView::Decimal(bits)),
    {
        Step::Value(Source::Decimal(bits), AfterValue::wrap(self))
    }

    /// Evaluates source text with no trap around it. The result is asked
    /// whether it is an error value: if so the operation ends in the decoded
    /// error, else in the result as it is. An error raised while the text
    /// runs is not caught on this path.
    pub fn load<'a>(&'a self, code: &str) -> (r: Step<'a>)
        requires
            nul_free(code.spec_bytes()),
        ensures
            r@ == StepView::load(code.spec_bytes()),
            r@.well_terminated(),
    {
        let list = vec![Fragment::Text(CUtf8::new(code)), Fragment::End];
        assert(fragment_views(list@) =~= with_end(seq![text_of(code)]));
        Step::Value(Source::ValueQ(list), AfterValue::loaded(self))
    }

    /// Fetches the field `field` of the value `a`. The operation ends in the
    /// field's value, which the caller reads and then releases.
    pub fn map_field<'a>(&'a self, a: &RebValue, field: &str) -> (r: Step<'a>)
        requires
            nul_free(field.spec_bytes()),
        ensures
            r@ == StepView::get_in(a.handle(), quoted_word(field)),
            r@.well_terminated(),
    {
        proof {
            reveal_strlit("get in");
        }
        let list = vec![
            keyword("get in"),
            Fragment::Value(a.as_raw()),
            quote(field),
            Fragment::End,
        ];
        assert(fragment_views(list@) =~= with_end(
            seq![text_of("get in"), FragmentView::Value(a.handle()), quoted_word(field)],
        ));
        Step::Value(Source::Value(list), AfterValue::wrap(self))
    }

    /// Evaluates one fragment inside a trap. The operation ends in the decoded
    /// error where the fragment raised one, else in the result, taken out of
    /// the block that the trap put it in.
    pub fn value1<'a, A: RebCode>(&'a self, a: &A) -> (r: Step<'a>)
        requires
            a.evaluable(),
        ensures
            r@ == StepView::value1(a.fragment()),
            r@.well_terminated(),
    {
        proof {
            reveal_strlit("entrap [");
            reveal_strlit("]");
        }
        let list = vec![keyword("entrap ["), a.as_fragment(), keyword("]"), Fragment::End];
        assert(fragment_views(list@) =~= with_end(
            seq![text_of("entrap [")] + seq![a.fragment()] + seq![text_of("]")],
        ));
        Step::Value(Source::Value(list), AfterValue::trapped(self, true))
    }

    /// Evaluates two fragments, in this order and as one expression, inside a
    /// trap. The operation ends in the error value itself, not decoded, where
    /// the expression raised one, else in the result, taken out of the block
    /// that the trap put it in.
    pub fn value2<'a, A: RebCode, B: RebCode>(&'a self, a: &A, b: &B) -> (r: Step<'a>)
        requires
            a.evaluable(),
            b.evaluable(),
        ensures
            r@ == StepView::value2(a.fragment(), b.fragment()),
            r@.well_terminated(),
    {
        proof {
            reveal_strlit("entrap [");
            reveal_strlit("]");
        }
        let list = vec![
            keyword("entrap ["),
            a.as_fragment(),
            b.as_fragment(),
            keyword("]"),
            Fragment::End,
        ];
        assert(fragment_views(list@) =~= with_end(
            seq![text_of("entrap [")] + seq![a.fragment(), b.fragment()] + seq![text_of("]")],
        ));
        Step::Value(Source::Value(list), AfterValue::trapped(self, false))
    }

    /// Evaluates three fragments, in this order and as one expression, with
    /// no trap and no test of the result: the operation ends in whatever the
    /// runtime answers.
    pub fn value3<'a, A: RebCode, B: RebCode, C: RebCode>(&'a self, a: &A, b: &B, c: &C) -> (r:
        Step<'a>)
        requires
            a.evaluable(),
            b.evaluable(),
            c.evaluable(),
        ensures
            r@ == StepView::value3(a.fragment(), b.fragment(), c.fragment()),
            r@.well_terminated(),
    {
        let list = vec![a.as_fragment(), b.as_fragment(), c.as_fragment(), Fragment::End];
        assert(fragment_views(list@) =~= with_end(
            seq![a.fragment(), b.fragment(), c.fragment()],
        ));
        Step::Value(Source::Value(list), AfterValue::wrap(self))
    }

    /// Evaluates one fragment for its effect alone.
    pub fn elide<'a, T: RebCode>(&'a self, t: &T) -> (r: Step<'a>)
        requires
            t.evaluable(),
        ensures
            r@ == StepView::elide(t.fragment()),
            r@.well_terminated(),
    {
        let list = vec![t.as_fragment(), Fragment::End];
        assert(fragment_views(list@) =~= with_end(seq![t.fragment()]));
        Step::Effect(Effect::Elide(list), AfterEffect::nothing())
    }
}

} // verus!
