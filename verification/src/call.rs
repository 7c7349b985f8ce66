//! The calls that a host performs against the runtime on the library's behalf.
//!
//! The library never talks to the runtime itself. It says which call is due,
//! as one of the values below, and takes the runtime's answer back as a plain
//! value. The calls are grouped by the kind of answer they give.

use crate::code::{fragment_views, with_end, Fragment, FragmentView};
use vstd::prelude::*;

verus! {

/// A call that answers with the handle of a value.
pub enum Source {
    /// The void value.
    Void,
    /// The blank value.
    Blank,
    /// The character with this code point.
    Char(u32),
    /// This integer.
    Integer(i64),
    /// The decimal number with these bits, in the binary64 interchange
    /// format.
    Decimal(u64),
    /// Evaluate the fragments, left to right, as one expression.
    Value(Vec<Fragment>),
    /// The same, by the evaluator's `Q` entry point.
    ValueQ(Vec<Fragment>),
}

/// What a [`Source`] stands for.
pub enum SourceView {
    Void,
    Blank,
    Char(u32),
    Integer(i64),
    Decimal(u64),
    Value(Seq<FragmentView>),
    ValueQ(Seq<FragmentView>),
}

impl View for Source {
    type V = SourceView;

    open spec fn view(&self) -> SourceView {
        match self {
            Source::Void => SourceView::Void,
            Source::Blank => SourceView::Blank,
            Source::Char(c) => SourceView::Char(*c),
            Source::Integer(i) => SourceView::Integer(*i),
            Source::Decimal(bits) => SourceView::Decimal(*bits),
            Source::Value(list) => SourceView::Value(fragment_views(list@)),
            Source::ValueQ(list) => SourceView::ValueQ(fragment_views(list@)),
        }
    }
}

/// A call that answers nothing.
pub enum Effect {
    /// Start the runtime.
    Startup,
    /// Shut the runtime down; the flag asks for a full teardown.
    Shutdown(bool),
    /// Evaluate the fragments and discard the result.
    Elide(Vec<Fragment>),
    /// Give up the reference that this handle stands for.
    Release(usize),
}

/// What an [`Effect`] stands for.
pub enum EffectView {
    Startup,
    Shutdown(bool),
    Elide(Seq<FragmentView>),
    Release(usize),
}

impl View for Effect {
    type V = EffectView;

    open spec fn view(&self) -> EffectView {
        match self {
            Effect::Startup => EffectView::Startup,
            Effect::Shutdown(clean) => EffectView::Shutdown(*clean),
            Effect::Elide(list) => EffectView::Elide(fragment_views(list@)),
            Effect::Release(h) => EffectView::Release(*h),
        }
    }
}

/// A call that answers with the text that the fragments spell. The host
/// copies the text out of the runtime's buffer and frees that buffer.
pub enum Spelling {
    /// The plain spelling.
    Spell(Vec<Fragment>),
    /// The spelling by the `Q` entry point.
    SpellQ(Vec<Fragment>),
}

/// What a [`Spelling`] stands for.
pub enum SpellingView {
    Spell(Seq<FragmentView>),
    SpellQ(Seq<FragmentView>),
}

impl View for Spelling {
    type V = SpellingView;

    open spec fn view(&self) -> SpellingView {
        match self {
            Spelling::Spell(list) => SpellingView::Spell(fragment_views(list@)),
            Spelling::SpellQ(list) => SpellingView::SpellQ(fragment_views(list@)),
        }
    }
}

impl SpellingView {
    /// The spelling of the value `handle`, by the entry point that `quoted`
    /// selects.
    pub open spec fn of(handle: usize, quoted: bool) -> SpellingView {
        if quoted {
            SpellingView::SpellQ(with_end(seq![FragmentView::Value(handle)]))
        } else {
            SpellingView::Spell(with_end(seq![FragmentView::Value(handle)]))
        }
    }
}

impl Spelling {
    /// Builds the spelling of the value `handle`.
    pub(crate) fn of(handle: usize, quoted: bool) -> (r: Spelling)
        ensures
            r@ == SpellingView::of(handle, quoted),
    {
        let list = vec![Fragment::Value(handle), Fragment::End];
        assert(fragment_views(list@) =~= with_end(seq![FragmentView::Value(handle)]));
        if quoted {
            Spelling::SpellQ(list)
        } else {
            Spelling::Spell(list)
        }
    }
}

/// A call that answers with a number.
pub enum Reading {
    /// The runtime's count of evaluation steps.
    Tick,
    /// The integer that the fragments unbox to.
    Integer(Vec<Fragment>),
}

/// What a [`Reading`] stands for.
pub enum ReadingView {
    Tick,
    Integer(Seq<FragmentView>),
}

impl View for Reading {
    type V = ReadingView;

    open spec fn view(&self) -> ReadingView {
        match self {
            Reading::Tick => ReadingView::Tick,
            Reading::Integer(list) => ReadingView::Integer(fragment_views(list@)),
        }
    }
}

} // verus!
