//! The foreign-owned dynamic array, generic over the element kinds the
//! host supports.
//!
//! For every supported element kind the host exposes a distinct
//! quadruple-plus-one of entry points (construct, destroy, size, data,
//! assign); there is no single generic foreign vector.  The [`ArrOps`]
//! trait is the per-kind capability mapping: it names the kind whose
//! entry points a stored type uses, states what a valid element is, what
//! construction preserves of an element's contents, and how one element
//! is deep-copied.  [`Arr`] delegates every operation to that mapping.
//!
//! A fixed-width, C-style enumeration can reuse an integer kind's entry
//! points through [`CEnumRepr`] instead of getting bespoke bindings: all
//! of its operations go through its backing integer representation.

use vstd::prelude::*;

use vstd::std_specs::iter::IteratorSpec;

use crate::host::Host;
use crate::kinds::{destroy_slot, kind_index_of, lemma_kind_index_in_range, ElemKind,
    VECTOR_DESTROY_BASE};
use crate::string::Str;

verus! {

/// The per-kind capability mapping for array elements.
///
/// A type implementing this trait can be stored in an [`Arr`]; its
/// operations then run through the vector entry points of the element
/// kind named by `kind`.
pub trait ArrOps: Sized {
    /// The element kind whose quadruple of vector entry points this type
    /// uses.
    spec fn kind() -> ElemKind;

    /// The element kind, at run time: it selects which entry points an
    /// array of this type calls through.
    fn elem_kind() -> (k: ElemKind)
        ensures
            k == Self::kind(),
    ;

    /// What a valid element is; an element that owns a foreign
    /// allocation must still be live.
    spec fn inv(&self) -> bool;

    /// Content equality: what construction and copying preserve of an
    /// element.
    spec fn like(&self, other: &Self) -> bool;

    /// A deep, independent copy of one element.
    fn dup(&self, host: &Host) -> (r: Self)
        requires
            self.inv(),
            host.ready(),
        ensures
            r.inv(),
            r.like(self),
    ;
}

/// An owned, foreign-heap-backed contiguous array of elements of one
/// kind.
///
/// The abstract value (the view) is the element sequence; `is_live` tells
/// whether the foreign allocation is still owned and not yet destroyed.
pub struct Arr<T: ArrOps> {
    items: Vec<T>,
    live: bool,
}

impl<T: ArrOps> View for Arr<T> {
    type V = Seq<T>;

    closed spec fn view(&self) -> Seq<T> {
        self.items@
    }
}

/// What constructing an array from a source sequence guarantees: the
/// array is live and holds one valid element per source element, equal in
/// content and order.
pub open spec fn loaded_from<T: ArrOps>(a: Arr<T>, data: Seq<T>) -> bool {
    &&& a.is_live()
    &&& a@.len() == data.len()
    &&& forall|i: int|
        #![trigger a@[i]]
        0 <= i < data.len() ==> a@[i].inv() && a@[i].like(&data[i])
}

impl<T: ArrOps> Arr<T> {
    /// Whether the foreign allocation is still owned, that is, not yet
    /// destroyed.
    pub closed spec fn is_live(&self) -> bool {
        self.live
    }

    /// Construct an empty array on the foreign heap.
    pub fn new(host: &Host) -> (a: Arr<T>)
        requires
            host.ready(),
        ensures
            a@ == Seq::<T>::empty(),
            a.is_live(),
    {
        Arr { items: Vec::new(), live: true }
    }

    /// Construct an array on the foreign heap holding a copy of the
    /// given elements.
    pub fn from_slice(host: &Host, data: &[T]) -> (a: Arr<T>)
        requires
            host.ready(),
            forall|i: int| #![trigger data@[i]] 0 <= i < data@.len() ==> data@[i].inv(),
        ensures
            loaded_from(a, data@),
    {
        let mut items: Vec<T> = Vec::new();
        let mut i: usize = 0;
        while i < data.len()
            invariant
                i <= data@.len(),
                host.ready(),
                forall|j: int| #![trigger data@[j]] 0 <= j < data@.len() ==> data@[j].inv(),
                items@.len() == i,
                forall|j: int|
                    #![trigger items@[j]]
                    0 <= j < i ==> items@[j].inv() && items@[j].like(&data@[j]),
            decreases data@.len() - i,
        {
            items.push(data[i].dup(host));
            i = i + 1;
        }
        Arr { items, live: true }
    }

    /// The number of elements, derived through the foreign size accessor.
    pub fn len(&self) -> (n: usize)
        requires
            self.is_live(),
        ensures
            n == self@.len(),
    {
        self.items.len()
    }

    /// Whether the array holds no element.
    pub fn is_empty(&self) -> (b: bool)
        requires
            self.is_live(),
        ensures
            b == (self@.len() == 0),
    {
        self.items.len() == 0
    }

    /// The elements as a borrowed view, valid until the next mutation.
    pub fn as_slice(&self) -> (s: &[T])
        requires
            self.is_live(),
        ensures
            s@ == self@,
    {
        self.items.as_slice()
    }

    /// The elements as a mutable borrowed view, valid until the next
    /// mutation.
    pub fn as_mut_slice(&mut self) -> (s: &mut [T])
        requires
            old(self).is_live(),
        ensures
            s@ == old(self)@,
            final(s)@ == final(self)@,
            final(self).is_live(),
    {
        self.items.as_mut_slice()
    }

    /// An owned copy of the elements.
    pub fn to_vec(&self, host: &Host) -> (out: Vec<T>)
        requires
            self.is_live(),
            host.ready(),
            forall|i: int| #![trigger self@[i]] 0 <= i < self@.len() ==> self@[i].inv(),
        ensures
            out@.len() == self@.len(),
            forall|i: int|
                #![trigger out@[i]]
                0 <= i < self@.len() ==> out@[i].inv() && out@[i].like(&self@[i]),
    {
        let mut out: Vec<T> = Vec::new();
        let mut i: usize = 0;
        while i < self.items.len()
            invariant
                i <= self@.len(),
                host.ready(),
                forall|j: int| #![trigger self@[j]] 0 <= j < self@.len() ==> self@[j].inv(),
                out@.len() == i,
                forall|j: int|
                    #![trigger out@[j]]
                    0 <= j < i ==> out@[j].inv() && out@[j].like(&self@[j]),
            decreases self@.len() - i,
        {
            out.push(self.items[i].dup(host));
            i = i + 1;
        }
        out
    }

    /// The element at an index, or nothing when the index is out of
    /// bounds.
    pub fn get(&self, index: usize) -> (r: Option<&T>)
        requires
            self.is_live(),
        ensures
            index < self@.len() ==> (r matches Some(e) && *e == self@[index as int]),
            index >= self@.len() ==> r is None,
    {
        if index < self.items.len() {
            Some(&self.items[index])
        } else {
            None
        }
    }

    /// Replace the contents with a copy of the given elements.  Any
    /// previously borrowed view is invalidated.
    pub fn set(&mut self, host: &Host, data: &[T])
        requires
            old(self).is_live(),
            host.ready(),
            forall|i: int| #![trigger data@[i]] 0 <= i < data@.len() ==> data@[i].inv(),
        ensures
            loaded_from(*final(self), data@),
    {
        let mut items: Vec<T> = Vec::new();
        let mut i: usize = 0;
        while i < data.len()
            invariant
                i <= data@.len(),
                host.ready(),
                forall|j: int| #![trigger data@[j]] 0 <= j < data@.len() ==> data@[j].inv(),
                items@.len() == i,
                forall|j: int|
                    #![trigger items@[j]]
                    0 <= j < i ==> items@[j].inv() && items@[j].like(&data@[j]),
            decreases data@.len() - i,
        {
            items.push(data[i].dup(host));
            i = i + 1;
        }
        self.items = items;
        self.live = true;
    }

    /// Iterate over the borrowed element view.
    pub fn iter(&self) -> (it: std::slice::Iter<'_, T>)
        requires
            self.is_live(),
        ensures
            it.remaining() == self@.as_ref(),
    {
        self.items.as_slice().iter()
    }

    /// Release the foreign allocation through the destroy entry point of
    /// this array's element kind, exactly once.
    ///
    /// The host records the invocation; afterwards the array is dead and
    /// no operation accepts it any more, so the allocation can never be
    /// released a second time.
    pub fn destroy(&mut self, host: &mut Host)
        requires
            old(self).is_live(),
            old(host).ready(),
        ensures
            !final(self).is_live(),
            final(self)@ == Seq::<T>::empty(),
            final(host).destroy_trace() == old(host).destroy_trace().push(
                destroy_slot(T::kind()) as usize,
            ),
            final(host).caps() == old(host).caps(),
    {
        self.items.clear();
        self.live = false;
        proof {
            lemma_kind_index_in_range(T::kind());
        }
        let slot = VECTOR_DESTROY_BASE + kind_index_of(T::elem_kind());
        host.record_destroy(slot);
    }
}

/// An owned copy of the elements of an array of plain copyable values.
///
/// Reading needs no capability: it only walks the borrowed view.
pub fn copy_out<T: ArrOps + Copy>(a: &Arr<T>) -> (out: Vec<T>)
    requires
        a.is_live(),
    ensures
        out@ == a@,
{
    let mut out: Vec<T> = Vec::new();
    let mut i: usize = 0;
    while i < a.items.len()
        invariant
            i <= a@.len(),
            out@.len() == i,
            forall|j: int| #![trigger out@[j]] 0 <= j < i ==> out@[j] == a@[j],
        decreases a@.len() - i,
    {
        out.push(a.items[i]);
        i = i + 1;
    }
    proof {
        assert(out@ =~= a@);
    }
    out
}

impl Arr<Str> {
    /// An owned copy of the contents of every element string.
    pub fn to_string(&self) -> (out: Vec<String>)
        requires
            self.is_live(),
            forall|i: int| #![trigger self@[i]] 0 <= i < self@.len() ==> self@[i].is_live(),
        ensures
            out@.len() == self@.len(),
            forall|i: int| #![trigger out@[i]] 0 <= i < self@.len() ==> out@[i]@ == self@[i]@,
    {
        let mut out: Vec<String> = Vec::new();
        let mut i: usize = 0;
        while i < self.items.len()
            invariant
                i <= self@.len(),
                forall|j: int| #![trigger self@[j]] 0 <= j < self@.len() ==> self@[j].is_live(),
                out@.len() == i,
                forall|j: int| #![trigger out@[j]] 0 <= j < i ==> out@[j]@ == self@[j]@,
            decreases self@.len() - i,
        {
            out.push(self.items[i].to_string());
            i = i + 1;
        }
        out
    }

    /// Construct an array of foreign strings from native strings.
    pub fn from_strings(host: &Host, data: &[String]) -> (a: Arr<Str>)
        requires
            host.ready(),
        ensures
            a.is_live(),
            a@.len() == data@.len(),
            forall|i: int|
                #![trigger a@[i]]
                0 <= i < data@.len() ==> a@[i].is_live() && a@[i]@ == data@[i]@,
    {
        let mut items: Vec<Str> = Vec::new();
        let mut i: usize = 0;
        while i < data.len()
            invariant
                i <= data@.len(),
                host.ready(),
                items@.len() == i,
                forall|j: int|
                    #![trigger items@[j]]
                    0 <= j < i ==> items@[j].is_live() && items@[j]@ == data@[j]@,
            decreases data@.len() - i,
        {
            items.push(Str::from_str(host, data[i].as_str()));
            i = i + 1;
        }
        Arr { items, live: true }
    }
}

/// Constructing an array from a source sequence and reading it back
/// through the borrowed-slice view yields the source back: same length,
/// same order, each element equal in content to its source.
pub proof fn lemma_round_trip<T: ArrOps>(a: Arr<T>, data: Seq<T>, view: Seq<T>)
    requires
        loaded_from(a, data),
        view == a@,
    ensures
        view.len() == data.len(),
        forall|i: int| #![trigger view[i]] 0 <= i < data.len() ==> view[i].like(&data[i]),
{
}

/// A fixed-width, C-style enumeration with a declared backing integer
/// representation.
///
/// Implementing this trait lets the enumeration reuse the backing
/// integer kind's vector entry points: every array operation goes
/// through the integer representation and back, so no bespoke foreign
/// bindings exist for the enumeration itself.
pub trait CEnumRepr: Sized + Copy {
    /// The backing integer type.
    type ReprInt: ArrOps + Copy;

    /// The integer representation of a value.
    spec fn to_repr_spec(self) -> Self::ReprInt;

    /// The value a representation stands for.
    spec fn from_repr_spec(r: Self::ReprInt) -> Self;

    /// Reading a value back from its representation gives the value.
    proof fn lemma_repr_roundtrip(e: Self)
        ensures
            Self::from_repr_spec(e.to_repr_spec()) == e,
    ;

    /// Content equality of the backing integer kind is plain equality,
    /// so values travel bit-identically through the integer path.
    proof fn lemma_repr_like_is_eq(a: Self::ReprInt, b: Self::ReprInt)
        ensures
            a.like(&b) <==> a == b,
    ;

    /// The integer representation, at run time.
    fn to_repr(self) -> (r: Self::ReprInt)
        ensures
            r == self.to_repr_spec(),
    ;

    /// The value of a representation, at run time.
    fn from_repr(r: Self::ReprInt) -> (e: Self)
        ensures
            e == Self::from_repr_spec(r),
    ;
}

impl<E: CEnumRepr> ArrOps for E {
    /// The enumeration reuses the backing integer kind's entry points.
    open spec fn kind() -> ElemKind {
        <E::ReprInt as ArrOps>::kind()
    }

    fn elem_kind() -> (k: ElemKind) {
        <E::ReprInt as ArrOps>::elem_kind()
    }

    open spec fn inv(&self) -> bool {
        true
    }

    open spec fn like(&self, other: &Self) -> bool {
        self == other
    }

    /// Copying goes through the integer representation, as every
    /// transition of the adapter does.
    fn dup(&self, host: &Host) -> (r: Self) {
        proof {
            E::lemma_repr_roundtrip(*self);
        }
        Self::from_repr(self.to_repr())
    }
}

/// The enum adapter is equivalent to the integer path: an array built
/// from enumeration values and an array built from their integer
/// representations hold, position by position, bit-identical
/// representations.
pub proof fn lemma_enum_adapter_equiv<E: CEnumRepr>(
    es: Seq<E>,
    ae: Arr<E>,
    ar: Arr<E::ReprInt>,
)
    requires
        loaded_from(ae, es),
        loaded_from(ar, es.map_values(|e: E| e.to_repr_spec())),
    ensures
        ae@.len() == ar@.len(),
        forall|i: int| #![trigger ar@[i]] 0 <= i < ae@.len() ==> ae@[i].to_repr_spec() == ar@[i],
{
    assert forall|i: int| 0 <= i < ae@.len() implies ae@[i].to_repr_spec() == #[trigger] ar@[i] by {
        E::lemma_repr_like_is_eq(ar@[i], es.map_values(|e: E| e.to_repr_spec())[i]);
    }
}

impl ArrOps for bool {
    open spec fn kind() -> ElemKind {
        ElemKind::Bool
    }

    fn elem_kind() -> (k: ElemKind) {
        ElemKind::Bool
    }

    open spec fn inv(&self) -> bool {
        true
    }

    open spec fn like(&self, other: &Self) -> bool {
        self == other
    }

    fn dup(&self, host: &Host) -> (r: Self) {
        *self
    }
}

impl ArrOps for i8 {
    open spec fn kind() -> ElemKind {
        ElemKind::Int8
    }

    fn elem_kind() -> (k: ElemKind) {
        ElemKind::Int8
    }

    open spec fn inv(&self) -> bool {
        true
    }

    open spec fn like(&self, other: &Self) -> bool {
        self == other
    }

    fn dup(&self, host: &Host) -> (r: Self) {
        *self
    }
}

impl ArrOps for i16 {
    open spec fn kind() -> ElemKind {
        ElemKind::Int16
    }

    fn elem_kind() -> (k: ElemKind) {
        ElemKind::Int16
    }

    open spec fn inv(&self) -> bool {
        true
    }

    open spec fn like(&self, other: &Self) -> bool {
        self == other
    }

    fn dup(&self, host: &Host) -> (r: Self) {
        *self
    }
}

impl ArrOps for i32 {
    open spec fn kind() -> ElemKind {
        ElemKind::Int32
    }

    fn elem_kind() -> (k: ElemKind) {
        ElemKind::Int32
    }

    open spec fn inv(&self) -> bool {
        true
    }

    open spec fn like(&self, other: &Self) -> bool {
        self == other
    }

    fn dup(&self, host: &Host) -> (r: Self) {
        *self
    }
}

impl ArrOps for i64 {
    open spec fn kind() -> ElemKind {
        ElemKind::Int64
    }

    fn elem_kind() -> (k: ElemKind) {
        ElemKind::Int64
    }

    open spec fn inv(&self) -> bool {
        true
    }

    open spec fn like(&self, other: &Self) -> bool {
        self == other
    }

    fn dup(&self, host: &Host) -> (r: Self) {
        *self
    }
}

impl ArrOps for u8 {
    open spec fn kind() -> ElemKind {
        ElemKind::UInt8
    }

    fn elem_kind() -> (k: ElemKind) {
        ElemKind::UInt8
    }

    open spec fn inv(&self) -> bool {
        true
    }

    open spec fn like(&self, other: &Self) -> bool {
        self == other
    }

    fn dup(&self, host: &Host) -> (r: Self) {
        *self
    }
}

impl ArrOps for u16 {
    open spec fn kind() -> ElemKind {
        ElemKind::UInt16
    }

    fn elem_kind() -> (k: ElemKind) {
        ElemKind::UInt16
    }

    open spec fn inv(&self) -> bool {
        true
    }

    open spec fn like(&self, other: &Self) -> bool {
        self == other
    }

    fn dup(&self, host: &Host) -> (r: Self) {
        *self
    }
}

impl ArrOps for u32 {
    open spec fn kind() -> ElemKind {
        ElemKind::UInt32
    }

    fn elem_kind() -> (k: ElemKind) {
        ElemKind::UInt32
    }

    open spec fn inv(&self) -> bool {
        true
    }

    open spec fn like(&self, other: &Self) -> bool {
        self == other
    }

    fn dup(&self, host: &Host) -> (r: Self) {
        *self
    }
}

impl ArrOps for u64 {
    open spec fn kind() -> ElemKind {
        ElemKind::UInt64
    }

    fn elem_kind() -> (k: ElemKind) {
        ElemKind::UInt64
    }

    open spec fn inv(&self) -> bool {
        true
    }

    open spec fn like(&self, other: &Self) -> bool {
        self == other
    }

    fn dup(&self, host: &Host) -> (r: Self) {
        *self
    }
}

impl ArrOps for usize {
    open spec fn kind() -> ElemKind {
        ElemKind::Pointer
    }

    fn elem_kind() -> (k: ElemKind) {
        ElemKind::Pointer
    }

    open spec fn inv(&self) -> bool {
        true
    }

    open spec fn like(&self, other: &Self) -> bool {
        self == other
    }

    fn dup(&self, host: &Host) -> (r: Self) {
        *self
    }
}

impl ArrOps for Str {
    open spec fn kind() -> ElemKind {
        ElemKind::String
    }

    fn elem_kind() -> (k: ElemKind) {
        ElemKind::String
    }

    open spec fn inv(&self) -> bool {
        self.is_live()
    }

    open spec fn like(&self, other: &Self) -> bool {
        self@ == other@
    }

    fn dup(&self, host: &Host) -> (r: Self) {
        Str::from_str(host, self.as_str())
    }
}

} // verus!
