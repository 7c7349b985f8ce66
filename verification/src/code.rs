//! Evaluable fragments: owned source text and borrowed value handles.
//!
//! The runtime's evaluator takes a list of fragments. A fragment is either a
//! piece of source text, held as a terminated byte buffer, or the handle of a
//! value that the runtime made earlier. Both kinds are offered through the one
//! capability [`RebCode`].

use vstd::prelude::*;
use vstd::string::*;

verus! {

/// The two bytes that close every fragment list handed to the evaluator.
pub const REB_END: [u8; 2] = [0x80, 0x00];

/// True when no byte of `bytes` is the terminator byte zero.
pub open spec fn nul_free(bytes: Seq<u8>) -> bool {
    forall|i: int| 0 <= i < bytes.len() ==> bytes[i] != 0u8
}

/// Owned source text, kept as the bytes of its UTF-8 encoding followed by one
/// zero byte. The view is the text's bytes without the terminator.
pub struct CUtf8 {
    s: Vec<u8>,
}

impl View for CUtf8 {
    type V = Seq<u8>;

    closed spec fn view(&self) -> Seq<u8> {
        self.s@.drop_last()
    }
}

impl CUtf8 {
    #[verifier::type_invariant]
    spec fn terminated(&self) -> bool {
        &&& self.s@.len() > 0
        &&& self.s@.last() == 0u8
        &&& nul_free(self.s@.drop_last())
    }

    /// Copies `text` and appends the terminator.
    pub(crate) fn from_text(text: &[u8]) -> (r: CUtf8)
        requires
            nul_free(text@),
        ensures
            r@ == text@,
    {
        let mut s: Vec<u8> = Vec::new();
        s.extend_from_slice(text);
        s.push(0u8);
        assert(s@.drop_last() =~= text@);
        CUtf8 { s }
    }

    /// The fragment for the source text `s`, which must hold no zero byte.
    pub fn new(s: &str) -> (r: CUtf8)
        requires
            nul_free(s.spec_bytes()),
        ensures
            r@ == s.spec_bytes(),
    {
        CUtf8::from_text(s.as_bytes())
    }

    /// The buffer as the evaluator reads it: the text, then one zero byte, and
    /// no zero byte before that.
    pub fn as_bytes_with_nul(&self) -> (r: &[u8])
        ensures
            r@ == self@.push(0u8),
            nul_free(self@),
    {
        proof {
            use_type_invariant(self);
            assert(self.s@ =~= self.s@.drop_last().push(0u8));
        }
        self.s.as_slice()
    }

    /// An independent copy of the same text.
    pub fn duplicate(&self) -> (r: CUtf8)
        ensures
            r@ == self@,
    {
        proof {
            use_type_invariant(self);
        }
        let n: usize = self.s.len() - 1;
        let text = vstd::slice::slice_subrange(self.s.as_slice(), 0, n);
        assert(text@ =~= self.s@.drop_last());
        CUtf8::from_text(text)
    }
}

/// One entry of a fragment list.
pub enum Fragment {
    /// Source text.
    Text(CUtf8),
    /// The handle of a runtime value, borrowed for the call.
    Value(usize),
    /// The end marker, [`REB_END`]: the last entry of every list.
    End,
}

/// What a [`Fragment`] stands for.
pub enum FragmentView {
    Text(Seq<u8>),
    Value(usize),
    End,
}

impl View for Fragment {
    type V = FragmentView;

    open spec fn view(&self) -> FragmentView {
        match self {
            Fragment::Text(t) => FragmentView::Text(t@),
            Fragment::Value(h) => FragmentView::Value(*h),
            Fragment::End => FragmentView::End,
        }
    }
}

/// The views of a list of fragments, in order.
pub open spec fn fragment_views(list: Seq<Fragment>) -> Seq<FragmentView> {
    list.map_values(|f: Fragment| f@)
}

/// Whether `list` is closed by the end marker, and holds it nowhere else. The
/// evaluator reads a list up to the first end marker, so this says that it
/// reads the whole list and stops there.
pub open spec fn terminated(list: Seq<FragmentView>) -> bool {
    &&& list.len() > 0
    &&& list.last() is End
    &&& forall|i: int| 0 <= i < list.len() - 1 ==> !(#[trigger] list[i] is End)
}

/// The list `items`, closed by the end marker.
pub open spec fn with_end(items: Seq<FragmentView>) -> Seq<FragmentView> {
    items.push(FragmentView::End)
}

/// The text fragment that holds exactly the bytes of `s`.
pub open spec fn text_of(s: &str) -> FragmentView {
    FragmentView::Text(s.spec_bytes())
}

/// The capability of being passed to the evaluator as one fragment.
pub trait RebCode {
    /// The fragment that this item contributes. It is never the end marker.
    spec fn fragment(&self) -> FragmentView;

    /// Whether the item may be handed to the evaluator at all.
    spec fn evaluable(&self) -> bool;

    /// The fragment to place in a list. The item stays with the caller, who
    /// keeps it alive until the call has been performed.
    fn as_fragment(&self) -> (r: Fragment)
        requires
            self.evaluable(),
        ensures
            r@ == self.fragment(),
            !(r@ is End),
    ;
}

impl RebCode for CUtf8 {
    open spec fn fragment(&self) -> FragmentView {
        FragmentView::Text(self@)
    }

    open spec fn evaluable(&self) -> bool {
        true
    }

    fn as_fragment(&self) -> (r: Fragment) {
        Fragment::Text(self.duplicate())
    }
}

} // verus!
