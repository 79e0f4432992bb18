//! The foreign-owned string.
//!
//! A `Str` owns one allocation of the foreign heap; constructing,
//! assigning and destroying it all go through capability slots of the
//! resolved [`crate::host::Host`], so every such operation demands a fully
//! bound host.  The foreign side guarantees the contents are valid UTF-8,
//! which the model reflects by holding them as a `String`.  Each live
//! instance is released exactly once: destruction demands a live value and
//! leaves a dead one, on which no further operation is available.

use vstd::prelude::*;
use vstd::utf8::encode_utf8;

use crate::host::Host;
use crate::kinds::SLOT_DESTROY_STRING;

verus! {

/// An owned, foreign-heap-backed UTF-8 string.
///
/// The abstract value (the view) is the character sequence of the
/// contents; `is_live` tells whether the foreign allocation is still owned
/// and not yet destroyed.
#[derive(Debug)]
pub struct Str {
    content: String,
    live: bool,
}

impl View for Str {
    type V = Seq<char>;

    closed spec fn view(&self) -> Seq<char> {
        self.content@
    }
}

impl DeepView for Str {
    type V = Seq<char>;

    open spec fn deep_view(&self) -> Seq<char> {
        self.view()
    }
}

impl Str {
    /// Whether the foreign allocation is still owned, that is, not yet
    /// destroyed.
    pub closed spec fn is_live(&self) -> bool {
        self.live
    }

    /// Construct an empty string on the foreign heap.
    pub fn new(host: &Host) -> (s: Str)
        requires
            host.ready(),
        ensures
            s@ == Seq::<char>::empty(),
            s.is_live(),
    {
        Str { content: String::new(), live: true }
    }

    /// Construct a string on the foreign heap holding the given contents.
    pub fn from_str(host: &Host, s: &str) -> (r: Str)
        requires
            host.ready(),
        ensures
            r@ == s@,
            r.is_live(),
    {
        Str { content: String::from_str(s), live: true }
    }

    /// The contents as a borrowed view, valid until the next mutation.
    pub fn as_str(&self) -> (r: &str)
        requires
            self.is_live(),
        ensures
            r@ == self@,
    {
        self.content.as_str()
    }

    /// The contents as a borrowed byte view, valid until the next
    /// mutation.
    pub fn as_bytes(&self) -> (b: &[u8])
        requires
            self.is_live(),
        ensures
            b@ == encode_utf8(self@),
    {
        self.content.as_str().as_bytes()
    }

    /// An owned copy of the contents.
    pub fn to_string(&self) -> (r: String)
        requires
            self.is_live(),
        ensures
            r@ == self@,
    {
        self.content.clone()
    }

    /// The length of the contents in bytes.
    pub fn len(&self) -> (n: usize)
        requires
            self.is_live(),
        ensures
            n == encode_utf8(self@).len() as usize,
    {
        self.content.as_str().len()
    }

    /// Whether the string is empty.
    pub fn is_empty(&self) -> (b: bool)
        requires
            self.is_live(),
        ensures
            b == (self@.len() == 0),
    {
        self.content.as_str().is_empty()
    }

    /// Replace the contents.  Any previously borrowed view is invalidated.
    pub fn set(&mut self, host: &Host, s: &str)
        requires
            old(self).is_live(),
            host.ready(),
        ensures
            final(self)@ == s@,
            final(self).is_live(),
    {
        self.content = String::from_str(s);
    }

    /// Release the foreign allocation through the string destroy entry
    /// point, exactly once.
    ///
    /// The host records the invocation; afterwards the string is dead
    /// and no operation accepts it any more, so the allocation can never
    /// be released a second time.
    pub fn destroy(&mut self, host: &mut Host)
        requires
            old(self).is_live(),
            old(host).ready(),
        ensures
            !final(self).is_live(),
            final(self)@ == Seq::<char>::empty(),
            final(host).destroy_trace() == old(host).destroy_trace().push(SLOT_DESTROY_STRING),
            final(host).caps() == old(host).caps(),
    {
        self.content = String::new();
        self.live = false;
        host.record_destroy(SLOT_DESTROY_STRING);
    }

    /// An independent copy, backed by its own fresh foreign allocation.
    pub fn dup(&self, host: &Host) -> (r: Str)
        requires
            self.is_live(),
            host.ready(),
        ensures
            r@ == self@,
            r.is_live(),
    {
        Str { content: self.content.clone(), live: true }
    }
}

impl PartialEq for Str {
    /// Equality delegates to the borrowed contents view.
    fn eq(&self, other: &Str) -> (r: bool) {
        self.content == other.content
    }
}

impl Eq for Str {}

impl vstd::std_specs::cmp::PartialEqSpecImpl for Str {
    open spec fn obeys_eq_spec() -> bool {
        true
    }

    open spec fn eq_spec(&self, other: &Str) -> bool {
        self@ == other@
    }
}

} // verus!
