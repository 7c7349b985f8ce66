//! Values: owned handles into the runtime.

use crate::call::{Effect, Reading, ReadingView, Spelling};
use crate::code::{fragment_views, with_end, CUtf8, Fragment, FragmentView, RebCode};
use crate::engine::RebEngine;
use crate::step::{AfterEffect, AfterText, Step, StepView};
use vstd::prelude::*;
use vstd::string::*;
use vstd::utf8::{decode_utf8, valid_utf8};

verus! {

/// `std::string::FromUtf8Error`, the error of `String::from_utf8`. It is
/// carried from the call to the test of its result, and never looked into.
#[verifier::external_type_specification]
#[verifier::external_body]
pub struct ExFromUtf8Error(std::string::FromUtf8Error);

/// `String::from_utf8` of the standard library. It succeeds exactly on
/// well-formed UTF-8, and the string then holds the text that the bytes
/// encode. This is taken on trust.
#[verifier::external_body]
fn string_from_utf8(bytes: Vec<u8>) -> (r: Result<String, std::string::FromUtf8Error>)
    ensures
        r is Ok <==> valid_utf8(bytes@),
        r matches Ok(s) ==> s@ == decode_utf8(bytes@),
{
    String::from_utf8(bytes)
}

/// The text of a spelling, from the bytes that the runtime's buffer held
/// before its terminator. `None` where the bytes are no well-formed UTF-8.
pub fn spelled_text(bytes: Vec<u8>) -> (r: Option<String>)
    ensures
        r is Some <==> valid_utf8(bytes@),
        r matches Some(s) ==> s@ == decode_utf8(bytes@),
{
    match string_from_utf8(bytes) {
        Ok(text) => Some(text),
        Err(_) => None,
    }
}

/// Text survives the way into the runtime and back: where a spelling gives
/// back the bytes of the fragment made from `s`, its text is `s`, whatever
/// characters `s` holds.
pub proof fn law_text_round_trip(s: &str, fragment: CUtf8, spelled: Option<String>)
    requires
        fragment@ == s.spec_bytes(),
        spelled is Some <==> valid_utf8(fragment@),
        spelled matches Some(t) ==> t@ == decode_utf8(fragment@),
    ensures
        spelled matches Some(t) && t@ == s@,
{
    vstd::utf8::encode_utf8_valid_utf8(s@);
    vstd::utf8::encode_utf8_decode_utf8(s@);
}

/// One reference to a value that lives in the runtime. It cannot be copied,
/// and it is given up exactly once, by [`RebValue::release`].
#[derive(Debug)]
pub struct RebValue<'a> {
    inner: usize,
    engine: &'a RebEngine,
}

impl<'a> RebValue<'a> {
    /// The handle that the runtime gave for this value.
    pub closed spec fn handle(&self) -> usize {
        self.inner
    }

    /// Takes charge of the reference behind `inner`, a handle that `engine`'s
    /// runtime has just answered with.
    pub(crate) fn from_raw(engine: &'a RebEngine, inner: usize) -> (r: RebValue<'a>)
        ensures
            r.handle() == inner,
    {
        RebValue { inner, engine }
    }

    /// Reads the handle.
    pub fn as_raw(&self) -> (r: usize)
        ensures
            r == self.handle(),
    {
        self.inner
    }

    /// Asks for the integer that the value holds. What the runtime does with
    /// a value that is no integer is its own affair.
    pub fn unbox_integer(&self) -> (r: Reading)
        ensures
            r@ == ReadingView::Integer(with_end(seq![FragmentView::Value(self.handle())])),
    {
        let list = vec![Fragment::Value(self.inner), Fragment::End];
        assert(fragment_views(list@) =~= with_end(seq![FragmentView::Value(self.handle())]));
        Reading::Integer(list)
    }

    /// Asks for the value's plain spelling, as used for free text.
    pub fn unbox_string<'b>(&self) -> (r: Step<'b>)
        ensures
            r@ == StepView::spell(self.handle(), false),
            r@.well_terminated(),
    {
        Step::Spell(Spelling::of(self.inner, false), AfterText::give())
    }

    /// Asks for the value's spelling by the `Q` entry point, as used for
    /// identifier-like text.
    pub fn unbox_string_q<'b>(&self) -> (r: Step<'b>)
        ensures
            r@ == StepView::spell(self.handle(), true),
            r@.well_terminated(),
    {
        Step::Spell(Spelling::of(self.inner, true), AfterText::give())
    }

    /// Gives the reference up. The value is consumed, so this happens once.
    pub fn release(self) -> (r: Step<'a>)
        ensures
            r@ == StepView::release(self.handle()),
    {
        Step::Effect(Effect::Release(self.inner), AfterEffect::nothing())
    }
}

impl<'a> RebCode for RebValue<'a> {
    open spec fn fragment(&self) -> FragmentView {
        FragmentView::Value(self.handle())
    }

    /// A value whose handle is null cannot stand in a fragment list.
    open spec fn evaluable(&self) -> bool {
        self.handle() != 0
    }

    fn as_fragment(&self) -> (r: Fragment) {
        Fragment::Value(self.inner)
    }
}

} // verus!
