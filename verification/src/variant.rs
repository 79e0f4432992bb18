//! The foreign variant: a tagged union able to hold any one supported
//! payload kind, with a discriminant that always names the active payload.
//!
//! Every state transition goes through the narrow interface of [`Var`]
//! (`construct`, `set`, `get`, `destroy`), which keeps the
//! discriminant-matches-payload invariant enforced in one place.  Owned
//! payload kinds (the string, and every array kind) hold foreign
//! allocations, which the single foreign variant-destroy entry point
//! releases exactly once.

use vstd::prelude::*;

use crate::host::Host;
use crate::kinds::{ElemKind, SLOT_DESTROY_VARIANT};
use crate::string::Str;
use crate::values::{Float32, Float64, Mat4x4, Vec2, Vec3, Vec4};
use crate::vector::{copy_out, loaded_from, Arr, ArrOps, CEnumRepr};

verus! {

/// The discriminant naming a variant's active payload kind.
///
/// The enumeration order is the ABI's: the byte value of a tag is its
/// position here, which [`CEnumRepr`] exposes as the backing `u8`
/// representation.
#[derive(Clone, Copy, PartialEq, Eq, Debug, Structural)]
pub enum Type {
    Invalid,
    Void,
    Bool,
    Char8,
    Char16,
    Int8,
    Int16,
    Int32,
    Int64,
    UInt8,
    UInt16,
    UInt32,
    UInt64,
    Pointer,
    Float,
    Double,
    Function,
    String,
    Any,
    ArrayBool,
    ArrayChar8,
    ArrayChar16,
    ArrayInt8,
    ArrayInt16,
    ArrayInt32,
    ArrayInt64,
    ArrayUInt8,
    ArrayUInt16,
    ArrayUInt32,
    ArrayUInt64,
    ArrayPointer,
    ArrayFloat,
    ArrayDouble,
    ArrayString,
    ArrayAny,
    ArrayVector2,
    ArrayVector3,
    ArrayVector4,
    ArrayMatrix4x4,
    Vector2,
    Vector3,
    Vector4,
    Matrix4x4,
}

/// A caller-owned tagged value: the native form a variant's payload is
/// copied into and constructed from.
#[derive(Debug, Clone, PartialEq)]
pub enum Any {
    Invalid,
    Bool(bool),
    Char8(i8),
    Char16(u16),
    Int8(i8),
    Int16(i16),
    Int32(i32),
    Int64(i64),
    UInt8(u8),
    UInt16(u16),
    UInt32(u32),
    UInt64(u64),
    Pointer(usize),
    Float(Float32),
    Double(Float64),
    String(String),
    ArrayBool(Vec<bool>),
    ArrayChar8(Vec<i8>),
    ArrayChar16(Vec<u16>),
    ArrayInt8(Vec<i8>),
    ArrayInt16(Vec<i16>),
    ArrayInt32(Vec<i32>),
    ArrayInt64(Vec<i64>),
    ArrayUInt8(Vec<u8>),
    ArrayUInt16(Vec<u16>),
    ArrayUInt32(Vec<u32>),
    ArrayUInt64(Vec<u64>),
    ArrayPointer(Vec<usize>),
    ArrayFloat(Vec<Float32>),
    ArrayDouble(Vec<Float64>),
    ArrayString(Vec<String>),
    ArrayVector2(Vec<Vec2>),
    ArrayVector3(Vec<Vec3>),
    ArrayVector4(Vec<Vec4>),
    ArrayMatrix4x4(Vec<Mat4x4>),
    Vector2(Vec2),
    Vector3(Vec3),
    Vector4(Vec4),
}

/// The abstract content of a payload: what a variant holds, with every
/// owned container reduced to the sequence of its contents.  Contracts
/// speak of payloads through this type.
pub enum AnyAbs {
    Invalid,
    Bool(bool),
    Char8(i8),
    Char16(u16),
    Int8(i8),
    Int16(i16),
    Int32(i32),
    Int64(i64),
    UInt8(u8),
    UInt16(u16),
    UInt32(u32),
    UInt64(u64),
    Pointer(usize),
    Float(Float32),
    Double(Float64),
    String(Seq<char>),
    ArrayBool(Seq<bool>),
    ArrayChar8(Seq<i8>),
    ArrayChar16(Seq<u16>),
    ArrayInt8(Seq<i8>),
    ArrayInt16(Seq<i16>),
    ArrayInt32(Seq<i32>),
    ArrayInt64(Seq<i64>),
    ArrayUInt8(Seq<u8>),
    ArrayUInt16(Seq<u16>),
    ArrayUInt32(Seq<u32>),
    ArrayUInt64(Seq<u64>),
    ArrayPointer(Seq<usize>),
    ArrayFloat(Seq<Float32>),
    ArrayDouble(Seq<Float64>),
    ArrayString(Seq<Seq<char>>),
    ArrayVector2(Seq<Vec2>),
    ArrayVector3(Seq<Vec3>),
    ArrayVector4(Seq<Vec4>),
    ArrayMatrix4x4(Seq<Mat4x4>),
    Vector2(Vec2),
    Vector3(Vec3),
    Vector4(Vec4),
}

/// The stored payload: scalars and value vectors by value, owned kinds
/// as the foreign-backed containers themselves.
enum VarData {
    Invalid,
    Bool(bool),
    Char8(i8),
    Char16(u16),
    Int8(i8),
    Int16(i16),
    Int32(i32),
    Int64(i64),
    UInt8(u8),
    UInt16(u16),
    UInt32(u32),
    UInt64(u64),
    Pointer(usize),
    Float(Float32),
    Double(Float64),
    String(Str),
    ArrayBool(Arr<bool>),
    ArrayChar8(Arr<i8>),
    ArrayChar16(Arr<u16>),
    ArrayInt8(Arr<i8>),
    ArrayInt16(Arr<i16>),
    ArrayInt32(Arr<i32>),
    ArrayInt64(Arr<i64>),
    ArrayUInt8(Arr<u8>),
    ArrayUInt16(Arr<u16>),
    ArrayUInt32(Arr<u32>),
    ArrayUInt64(Arr<u64>),
    ArrayPointer(Arr<usize>),
    ArrayFloat(Arr<Float32>),
    ArrayDouble(Arr<Float64>),
    ArrayString(Arr<Str>),
    ArrayVector2(Arr<Vec2>),
    ArrayVector3(Arr<Vec3>),
    ArrayVector4(Arr<Vec4>),
    ArrayMatrix4x4(Arr<Mat4x4>),
    Vector2(Vec2),
    Vector3(Vec3),
    Vector4(Vec4),
}

/// The payload kind of a caller-owned tagged value.
pub open spec fn any_tag(a: Any) -> Type {
    match a {
        Any::Invalid => Type::Invalid,
        Any::Bool(_) => Type::Bool,
        Any::Char8(_) => Type::Char8,
        Any::Char16(_) => Type::Char16,
        Any::Int8(_) => Type::Int8,
        Any::Int16(_) => Type::Int16,
        Any::Int32(_) => Type::Int32,
        Any::Int64(_) => Type::Int64,
        Any::UInt8(_) => Type::UInt8,
        Any::UInt16(_) => Type::UInt16,
        Any::UInt32(_) => Type::UInt32,
        Any::UInt64(_) => Type::UInt64,
        Any::Pointer(_) => Type::Pointer,
        Any::Float(_) => Type::Float,
        Any::Double(_) => Type::Double,
        Any::String(_) => Type::String,
        Any::ArrayBool(_) => Type::ArrayBool,
        Any::ArrayChar8(_) => Type::ArrayChar8,
        Any::ArrayChar16(_) => Type::ArrayChar16,
        Any::ArrayInt8(_) => Type::ArrayInt8,
        Any::ArrayInt16(_) => Type::ArrayInt16,
        Any::ArrayInt32(_) => Type::ArrayInt32,
        Any::ArrayInt64(_) => Type::ArrayInt64,
        Any::ArrayUInt8(_) => Type::ArrayUInt8,
        Any::ArrayUInt16(_) => Type::ArrayUInt16,
        Any::ArrayUInt32(_) => Type::ArrayUInt32,
        Any::ArrayUInt64(_) => Type::ArrayUInt64,
        Any::ArrayPointer(_) => Type::ArrayPointer,
        Any::ArrayFloat(_) => Type::ArrayFloat,
        Any::ArrayDouble(_) => Type::ArrayDouble,
        Any::ArrayString(_) => Type::ArrayString,
        Any::ArrayVector2(_) => Type::ArrayVector2,
        Any::ArrayVector3(_) => Type::ArrayVector3,
        Any::ArrayVector4(_) => Type::ArrayVector4,
        Any::ArrayMatrix4x4(_) => Type::ArrayMatrix4x4,
        Any::Vector2(_) => Type::Vector2,
        Any::Vector3(_) => Type::Vector3,
        Any::Vector4(_) => Type::Vector4,
    }
}

/// The abstract content of a caller-owned tagged value.
pub open spec fn any_abs(a: Any) -> AnyAbs {
    match a {
        Any::Invalid => AnyAbs::Invalid,
        Any::Bool(v) => AnyAbs::Bool(v),
        Any::Char8(v) => AnyAbs::Char8(v),
        Any::Char16(v) => AnyAbs::Char16(v),
        Any::Int8(v) => AnyAbs::Int8(v),
        Any::Int16(v) => AnyAbs::Int16(v),
        Any::Int32(v) => AnyAbs::Int32(v),
        Any::Int64(v) => AnyAbs::Int64(v),
        Any::UInt8(v) => AnyAbs::UInt8(v),
        Any::UInt16(v) => AnyAbs::UInt16(v),
        Any::UInt32(v) => AnyAbs::UInt32(v),
        Any::UInt64(v) => AnyAbs::UInt64(v),
        Any::Pointer(v) => AnyAbs::Pointer(v),
        Any::Float(v) => AnyAbs::Float(v),
        Any::Double(v) => AnyAbs::Double(v),
        Any::String(v) => AnyAbs::String(v@),
        Any::ArrayBool(v) => AnyAbs::ArrayBool(v@),
        Any::ArrayChar8(v) => AnyAbs::ArrayChar8(v@),
        Any::ArrayChar16(v) => AnyAbs::ArrayChar16(v@),
        Any::ArrayInt8(v) => AnyAbs::ArrayInt8(v@),
        Any::ArrayInt16(v) => AnyAbs::ArrayInt16(v@),
        Any::ArrayInt32(v) => AnyAbs::ArrayInt32(v@),
        Any::ArrayInt64(v) => AnyAbs::ArrayInt64(v@),
        Any::ArrayUInt8(v) => AnyAbs::ArrayUInt8(v@),
        Any::ArrayUInt16(v) => AnyAbs::ArrayUInt16(v@),
        Any::ArrayUInt32(v) => AnyAbs::ArrayUInt32(v@),
        Any::ArrayUInt64(v) => AnyAbs::ArrayUInt64(v@),
        Any::ArrayPointer(v) => AnyAbs::ArrayPointer(v@),
        Any::ArrayFloat(v) => AnyAbs::ArrayFloat(v@),
        Any::ArrayDouble(v) => AnyAbs::ArrayDouble(v@),
        Any::ArrayString(v) => AnyAbs::ArrayString(v@.map_values(|x: String| x@)),
        Any::ArrayVector2(v) => AnyAbs::ArrayVector2(v@),
        Any::ArrayVector3(v) => AnyAbs::ArrayVector3(v@),
        Any::ArrayVector4(v) => AnyAbs::ArrayVector4(v@),
        Any::ArrayMatrix4x4(v) => AnyAbs::ArrayMatrix4x4(v@),
        Any::Vector2(v) => AnyAbs::Vector2(v),
        Any::Vector3(v) => AnyAbs::Vector3(v),
        Any::Vector4(v) => AnyAbs::Vector4(v),
    }
}

/// The payload kind of an abstract content.
pub open spec fn abs_tag(a: AnyAbs) -> Type {
    match a {
        AnyAbs::Invalid => Type::Invalid,
        AnyAbs::Bool(_) => Type::Bool,
        AnyAbs::Char8(_) => Type::Char8,
        AnyAbs::Char16(_) => Type::Char16,
        AnyAbs::Int8(_) => Type::Int8,
        AnyAbs::Int16(_) => Type::Int16,
        AnyAbs::Int32(_) => Type::Int32,
        AnyAbs::Int64(_) => Type::Int64,
        AnyAbs::UInt8(_) => Type::UInt8,
        AnyAbs::UInt16(_) => Type::UInt16,
        AnyAbs::UInt32(_) => Type::UInt32,
        AnyAbs::UInt64(_) => Type::UInt64,
        AnyAbs::Pointer(_) => Type::Pointer,
        AnyAbs::Float(_) => Type::Float,
        AnyAbs::Double(_) => Type::Double,
        AnyAbs::String(_) => Type::String,
        AnyAbs::ArrayBool(_) => Type::ArrayBool,
        AnyAbs::ArrayChar8(_) => Type::ArrayChar8,
        AnyAbs::ArrayChar16(_) => Type::ArrayChar16,
        AnyAbs::ArrayInt8(_) => Type::ArrayInt8,
        AnyAbs::ArrayInt16(_) => Type::ArrayInt16,
        AnyAbs::ArrayInt32(_) => Type::ArrayInt32,
        AnyAbs::ArrayInt64(_) => Type::ArrayInt64,
        AnyAbs::ArrayUInt8(_) => Type::ArrayUInt8,
        AnyAbs::ArrayUInt16(_) => Type::ArrayUInt16,
        AnyAbs::ArrayUInt32(_) => Type::ArrayUInt32,
        AnyAbs::ArrayUInt64(_) => Type::ArrayUInt64,
        AnyAbs::ArrayPointer(_) => Type::ArrayPointer,
        AnyAbs::ArrayFloat(_) => Type::ArrayFloat,
        AnyAbs::ArrayDouble(_) => Type::ArrayDouble,
        AnyAbs::ArrayString(_) => Type::ArrayString,
        AnyAbs::ArrayVector2(_) => Type::ArrayVector2,
        AnyAbs::ArrayVector3(_) => Type::ArrayVector3,
        AnyAbs::ArrayVector4(_) => Type::ArrayVector4,
        AnyAbs::ArrayMatrix4x4(_) => Type::ArrayMatrix4x4,
        AnyAbs::Vector2(_) => Type::Vector2,
        AnyAbs::Vector3(_) => Type::Vector3,
        AnyAbs::Vector4(_) => Type::Vector4,
    }
}

/// Whether a payload kind owns a foreign allocation (the string and
/// every array kind), so that constructing it calls into the host.
pub open spec fn owned_tag(t: Type) -> bool {
    match t {
        Type::String => true,
        Type::ArrayString => true,
        Type::ArrayBool => true,
        Type::ArrayChar8 => true,
        Type::ArrayChar16 => true,
        Type::ArrayInt8 => true,
        Type::ArrayInt16 => true,
        Type::ArrayInt32 => true,
        Type::ArrayInt64 => true,
        Type::ArrayUInt8 => true,
        Type::ArrayUInt16 => true,
        Type::ArrayUInt32 => true,
        Type::ArrayUInt64 => true,
        Type::ArrayPointer => true,
        Type::ArrayFloat => true,
        Type::ArrayDouble => true,
        Type::ArrayVector2 => true,
        Type::ArrayVector3 => true,
        Type::ArrayVector4 => true,
        Type::ArrayMatrix4x4 => true,
        _ => false,
    }
}

/// Whether a caller-owned tagged value carries an owned payload kind.
pub open spec fn any_owned(a: Any) -> bool {
    owned_tag(any_tag(a))
}

/// The kind of a caller-owned tagged value agrees with the kind of its
/// abstract content.
pub proof fn lemma_any_tag_abs(a: Any)
    ensures
        abs_tag(any_abs(a)) == any_tag(a),
{
}

impl VarData {
    /// The payload kind this stored payload belongs to.
    spec fn tag(&self) -> Type {
        match self {
            VarData::Invalid => Type::Invalid,
            VarData::Bool(_) => Type::Bool,
            VarData::Char8(_) => Type::Char8,
            VarData::Char16(_) => Type::Char16,
            VarData::Int8(_) => Type::Int8,
            VarData::Int16(_) => Type::Int16,
            VarData::Int32(_) => Type::Int32,
            VarData::Int64(_) => Type::Int64,
            VarData::UInt8(_) => Type::UInt8,
            VarData::UInt16(_) => Type::UInt16,
            VarData::UInt32(_) => Type::UInt32,
            VarData::UInt64(_) => Type::UInt64,
            VarData::Pointer(_) => Type::Pointer,
            VarData::Float(_) => Type::Float,
            VarData::Double(_) => Type::Double,
            VarData::String(_) => Type::String,
            VarData::ArrayBool(_) => Type::ArrayBool,
            VarData::ArrayChar8(_) => Type::ArrayChar8,
            VarData::ArrayChar16(_) => Type::ArrayChar16,
            VarData::ArrayInt8(_) => Type::ArrayInt8,
            VarData::ArrayInt16(_) => Type::ArrayInt16,
            VarData::ArrayInt32(_) => Type::ArrayInt32,
            VarData::ArrayInt64(_) => Type::ArrayInt64,
            VarData::ArrayUInt8(_) => Type::ArrayUInt8,
            VarData::ArrayUInt16(_) => Type::ArrayUInt16,
            VarData::ArrayUInt32(_) => Type::ArrayUInt32,
            VarData::ArrayUInt64(_) => Type::ArrayUInt64,
            VarData::ArrayPointer(_) => Type::ArrayPointer,
            VarData::ArrayFloat(_) => Type::ArrayFloat,
            VarData::ArrayDouble(_) => Type::ArrayDouble,
            VarData::ArrayString(_) => Type::ArrayString,
            VarData::ArrayVector2(_) => Type::ArrayVector2,
            VarData::ArrayVector3(_) => Type::ArrayVector3,
            VarData::ArrayVector4(_) => Type::ArrayVector4,
            VarData::ArrayMatrix4x4(_) => Type::ArrayMatrix4x4,
            VarData::Vector2(_) => Type::Vector2,
            VarData::Vector3(_) => Type::Vector3,
            VarData::Vector4(_) => Type::Vector4,
        }
    }

    /// The abstract content of this stored payload.
    spec fn abs(&self) -> AnyAbs {
        match self {
            VarData::Invalid => AnyAbs::Invalid,
            VarData::Bool(v) => AnyAbs::Bool(*v),
            VarData::Char8(v) => AnyAbs::Char8(*v),
            VarData::Char16(v) => AnyAbs::Char16(*v),
            VarData::Int8(v) => AnyAbs::Int8(*v),
            VarData::Int16(v) => AnyAbs::Int16(*v),
            VarData::Int32(v) => AnyAbs::Int32(*v),
            VarData::Int64(v) => AnyAbs::Int64(*v),
            VarData::UInt8(v) => AnyAbs::UInt8(*v),
            VarData::UInt16(v) => AnyAbs::UInt16(*v),
            VarData::UInt32(v) => AnyAbs::UInt32(*v),
            VarData::UInt64(v) => AnyAbs::UInt64(*v),
            VarData::Pointer(v) => AnyAbs::Pointer(*v),
            VarData::Float(v) => AnyAbs::Float(*v),
            VarData::Double(v) => AnyAbs::Double(*v),
            VarData::String(v) => AnyAbs::String(v@),
            VarData::ArrayBool(v) => AnyAbs::ArrayBool(v@),
            VarData::ArrayChar8(v) => AnyAbs::ArrayChar8(v@),
            VarData::ArrayChar16(v) => AnyAbs::ArrayChar16(v@),
            VarData::ArrayInt8(v) => AnyAbs::ArrayInt8(v@),
            VarData::ArrayInt16(v) => AnyAbs::ArrayInt16(v@),
            VarData::ArrayInt32(v) => AnyAbs::ArrayInt32(v@),
            VarData::ArrayInt64(v) => AnyAbs::ArrayInt64(v@),
            VarData::ArrayUInt8(v) => AnyAbs::ArrayUInt8(v@),
            VarData::ArrayUInt16(v) => AnyAbs::ArrayUInt16(v@),
            VarData::ArrayUInt32(v) => AnyAbs::ArrayUInt32(v@),
            VarData::ArrayUInt64(v) => AnyAbs::ArrayUInt64(v@),
            VarData::ArrayPointer(v) => AnyAbs::ArrayPointer(v@),
            VarData::ArrayFloat(v) => AnyAbs::ArrayFloat(v@),
            VarData::ArrayDouble(v) => AnyAbs::ArrayDouble(v@),
            VarData::ArrayString(v) => AnyAbs::ArrayString(v@.map_values(|x: Str| x@)),
            VarData::ArrayVector2(v) => AnyAbs::ArrayVector2(v@),
            VarData::ArrayVector3(v) => AnyAbs::ArrayVector3(v@),
            VarData::ArrayVector4(v) => AnyAbs::ArrayVector4(v@),
            VarData::ArrayMatrix4x4(v) => AnyAbs::ArrayMatrix4x4(v@),
            VarData::Vector2(v) => AnyAbs::Vector2(*v),
            VarData::Vector3(v) => AnyAbs::Vector3(*v),
            VarData::Vector4(v) => AnyAbs::Vector4(*v),
        }
    }

    /// Every owned payload still owns its foreign allocation.
    spec fn payload_inv(&self) -> bool {
        match self {
            VarData::String(v) => v.is_live(),
            VarData::ArrayString(v) => v.is_live() && forall|i: int|
                #![trigger v@[i]]
                0 <= i < v@.len() ==> v@[i].is_live(),
            VarData::ArrayBool(v) => v.is_live(),
            VarData::ArrayChar8(v) => v.is_live(),
            VarData::ArrayChar16(v) => v.is_live(),
            VarData::ArrayInt8(v) => v.is_live(),
            VarData::ArrayInt16(v) => v.is_live(),
            VarData::ArrayInt32(v) => v.is_live(),
            VarData::ArrayInt64(v) => v.is_live(),
            VarData::ArrayUInt8(v) => v.is_live(),
            VarData::ArrayUInt16(v) => v.is_live(),
            VarData::ArrayUInt32(v) => v.is_live(),
            VarData::ArrayUInt64(v) => v.is_live(),
            VarData::ArrayPointer(v) => v.is_live(),
            VarData::ArrayFloat(v) => v.is_live(),
            VarData::ArrayDouble(v) => v.is_live(),
            VarData::ArrayVector2(v) => v.is_live(),
            VarData::ArrayVector3(v) => v.is_live(),
            VarData::ArrayVector4(v) => v.is_live(),
            VarData::ArrayMatrix4x4(v) => v.is_live(),
            _ => true,
        }
    }
}

/// The foreign variant: one payload of any supported kind, a
/// discriminant naming that kind, and ownership of whatever foreign
/// allocations the payload holds.
pub struct Var {
    data: VarData,
    current: Type,
    live: bool,
}

/// What installing a value into a variant guarantees: the variant is
/// well formed and live, holds the value's abstract content, and its
/// discriminant names the value's kind.
pub open spec fn installed(v: Var, a: Any) -> bool {
    &&& v.wf()
    &&& v.is_live()
    &&& v.abs() == any_abs(a)
    &&& v.current_spec() == any_tag(a)
}

impl Var {
    /// The critical invariant: the discriminant names exactly the
    /// currently-active payload, and every owned payload still owns its
    /// foreign allocation.
    pub closed spec fn wf(&self) -> bool {
        &&& self.current == self.data.tag()
        &&& self.data.payload_inv()
    }

    /// Whether the variant has not been destroyed.
    pub closed spec fn is_live(&self) -> bool {
        self.live
    }

    /// The abstract content of the active payload.
    pub closed spec fn abs(&self) -> AnyAbs {
        self.data.abs()
    }

    /// The discriminant.
    pub closed spec fn current_spec(&self) -> Type {
        self.current
    }

    /// Construct a variant holding the given value.
    pub fn new(host: &Host, value: &Any) -> (v: Var)
        requires
            any_owned(*value) ==> host.ready(),
        ensures
            installed(v, *value),
    {
        let mut v = Var { data: VarData::Invalid, current: Type::Invalid, live: true };
        v.construct(host, value);
        v
    }

    /// Install the payload and discriminant for the value's kind,
    /// together, with no observable state in between.
    ///
    /// This does not release any prior payload: the callers inside this
    /// interface only use it on a variant that is freshly invalid or was
    /// just destroyed, which is what keeps a live owned payload from
    /// being leaked.
    fn construct(&mut self, host: &Host, value: &Any)
        requires
            any_owned(*value) ==> host.ready(),
        ensures
            installed(*final(self), *value),
    {
        match value {
            Any::Invalid => {
                self.data = VarData::Invalid;
                self.current = Type::Invalid;
            },
            Any::Bool(v) => {
                self.data = VarData::Bool(*v);
                self.current = Type::Bool;
            },
            Any::Char8(v) => {
                self.data = VarData::Char8(*v);
                self.current = Type::Char8;
            },
            Any::Char16(v) => {
                self.data = VarData::Char16(*v);
                self.current = Type::Char16;
            },
            Any::Int8(v) => {
                self.data = VarData::Int8(*v);
                self.current = Type::Int8;
            },
            Any::Int16(v) => {
                self.data = VarData::Int16(*v);
                self.current = Type::Int16;
            },
            Any::Int32(v) => {
                self.data = VarData::Int32(*v);
                self.current = Type::Int32;
            },
            Any::Int64(v) => {
                self.data = VarData::Int64(*v);
                self.current = Type::Int64;
            },
            Any::UInt8(v) => {
                self.data = VarData::UInt8(*v);
                self.current = Type::UInt8;
            },
            Any::UInt16(v) => {
                self.data = VarData::UInt16(*v);
                self.current = Type::UInt16;
            },
            Any::UInt32(v) => {
                self.data = VarData::UInt32(*v);
                self.current = Type::UInt32;
            },
            Any::UInt64(v) => {
                self.data = VarData::UInt64(*v);
                self.current = Type::UInt64;
            },
            Any::Pointer(v) => {
                self.data = VarData::Pointer(*v);
                self.current = Type::Pointer;
            },
            Any::Float(v) => {
                self.data = VarData::Float(*v);
                self.current = Type::Float;
            },
            Any::Double(v) => {
                self.data = VarData::Double(*v);
                self.current = Type::Double;
            },
            Any::Vector2(v) => {
                self.data = VarData::Vector2(*v);
                self.current = Type::Vector2;
            },
            Any::Vector3(v) => {
                self.data = VarData::Vector3(*v);
                self.current = Type::Vector3;
            },
            Any::Vector4(v) => {
                self.data = VarData::Vector4(*v);
                self.current = Type::Vector4;
            },
            Any::String(v) => {
                self.data = VarData::String(Str::from_str(host, v.as_str()));
                self.current = Type::String;
            },
            Any::ArrayString(v) => {
                let a = Arr::<Str>::from_strings(host, v.as_slice());
                proof {
                    assert forall|i: int| #![trigger a@[i]] 0 <= i < v@.len() implies a@[i]@
                        == v@[i]@ by {}
                    assert(a@.map_values(|x: Str| x@) =~= v@.map_values(|x: String| x@));
                }
                self.data = VarData::ArrayString(a);
                self.current = Type::ArrayString;
            },
            Any::ArrayBool(v) => {
                let a = Arr::<bool>::from_slice(host, v.as_slice());
                proof {
                    assert forall|i: int| 0 <= i < v@.len() implies a@[i] == v@[i] by {}
                    assert(a@ =~= v@);
                }
                self.data = VarData::ArrayBool(a);
                self.current = Type::ArrayBool;
            },
            Any::ArrayChar8(v) => {
                let a = Arr::<i8>::from_slice(host, v.as_slice());
                proof {
                    assert forall|i: int| 0 <= i < v@.len() implies a@[i] == v@[i] by {}
                    assert(a@ =~= v@);
                }
                self.data = VarData::ArrayChar8(a);
                self.current = Type::ArrayChar8;
            },
            Any::ArrayChar16(v) => {
                let a = Arr::<u16>::from_slice(host, v.as_slice());
                proof {
                    assert forall|i: int| 0 <= i < v@.len() implies a@[i] == v@[i] by {}
                    assert(a@ =~= v@);
                }
                self.data = VarData::ArrayChar16(a);
                self.current = Type::ArrayChar16;
            },
            Any::ArrayInt8(v) => {
                let a = Arr::<i8>::from_slice(host, v.as_slice());
                proof {
                    assert forall|i: int| 0 <= i < v@.len() implies a@[i] == v@[i] by {}
                    assert(a@ =~= v@);
                }
                self.data = VarData::ArrayInt8(a);
                self.current = Type::ArrayInt8;
            },
            Any::ArrayInt16(v) => {
                let a = Arr::<i16>::from_slice(host, v.as_slice());
                proof {
                    assert forall|i: int| 0 <= i < v@.len() implies a@[i] == v@[i] by {}
                    assert(a@ =~= v@);
                }
                self.data = VarData::ArrayInt16(a);
                self.current = Type::ArrayInt16;
            },
            Any::ArrayInt32(v) => {
                let a = Arr::<i32>::from_slice(host, v.as_slice());
                proof {
                    assert forall|i: int| 0 <= i < v@.len() implies a@[i] == v@[i] by {}
                    assert(a@ =~= v@);
                }
                self.data = VarData::ArrayInt32(a);
                self.current = Type::ArrayInt32;
            },
            Any::ArrayInt64(v) => {
                let a = Arr::<i64>::from_slice(host, v.as_slice());
                proof {
                    assert forall|i: int| 0 <= i < v@.len() implies a@[i] == v@[i] by {}
                    assert(a@ =~= v@);
                }
                self.data = VarData::ArrayInt64(a);
                self.current = Type::ArrayInt64;
            },
            Any::ArrayUInt8(v) => {
                let a = Arr::<u8>::from_slice(host, v.as_slice());
                proof {
                    assert forall|i: int| 0 <= i < v@.len() implies a@[i] == v@[i] by {}
                    assert(a@ =~= v@);
                }
                self.data = VarData::ArrayUInt8(a);
                self.current = Type::ArrayUInt8;
            },
            Any::ArrayUInt16(v) => {
                let a = Arr::<u16>::from_slice(host, v.as_slice());
                proof {
                    assert forall|i: int| 0 <= i < v@.len() implies a@[i] == v@[i] by {}
                    assert(a@ =~= v@);
                }
                self.data = VarData::ArrayUInt16(a);
                self.current = Type::ArrayUInt16;
            },
            Any::ArrayUInt32(v) => {
                let a = Arr::<u32>::from_slice(host, v.as_slice());
                proof {
                    assert forall|i: int| 0 <= i < v@.len() implies a@[i] == v@[i] by {}
                    assert(a@ =~= v@);
                }
                self.data = VarData::ArrayUInt32(a);
                self.current = Type::ArrayUInt32;
            },
            Any::ArrayUInt64(v) => {
                let a = Arr::<u64>::from_slice(host, v.as_slice());
                proof {
                    assert forall|i: int| 0 <= i < v@.len() implies a@[i] == v@[i] by {}
                    assert(a@ =~= v@);
                }
                self.data = VarData::ArrayUInt64(a);
                self.current = Type::ArrayUInt64;
            },
            Any::ArrayPointer(v) => {
                let a = Arr::<usize>::from_slice(host, v.as_slice());
                proof {
                    assert forall|i: int| 0 <= i < v@.len() implies a@[i] == v@[i] by {}
                    assert(a@ =~= v@);
                }
                self.data = VarData::ArrayPointer(a);
                self.current = Type::ArrayPointer;
            },
            Any::ArrayFloat(v) => {
                let a = Arr::<Float32>::from_slice(host, v.as_slice());
                proof {
                    assert forall|i: int| 0 <= i < v@.len() implies a@[i] == v@[i] by {}
                    assert(a@ =~= v@);
                }
                self.data = VarData::ArrayFloat(a);
                self.current = Type::ArrayFloat;
            },
            Any::ArrayDouble(v) => {
                let a = Arr::<Float64>::from_slice(host, v.as_slice());
                proof {
                    assert forall|i: int| 0 <= i < v@.len() implies a@[i] == v@[i] by {}
                    assert(a@ =~= v@);
                }
                self.data = VarData::ArrayDouble(a);
                self.current = Type::ArrayDouble;
            },
            Any::ArrayVector2(v) => {
                let a = Arr::<Vec2>::from_slice(host, v.as_slice());
                proof {
                    assert forall|i: int| 0 <= i < v@.len() implies a@[i] == v@[i] by {}
                    assert(a@ =~= v@);
                }
                self.data = VarData::ArrayVector2(a);
                self.current = Type::ArrayVector2;
            },
            Any::ArrayVector3(v) => {
                let a = Arr::<Vec3>::from_slice(host, v.as_slice());
                proof {
                    assert forall|i: int| 0 <= i < v@.len() implies a@[i] == v@[i] by {}
                    assert(a@ =~= v@);
                }
                self.data = VarData::ArrayVector3(a);
                self.current = Type::ArrayVector3;
            },
            Any::ArrayVector4(v) => {
                let a = Arr::<Vec4>::from_slice(host, v.as_slice());
                proof {
                    assert forall|i: int| 0 <= i < v@.len() implies a@[i] == v@[i] by {}
                    assert(a@ =~= v@);
                }
                self.data = VarData::ArrayVector4(a);
                self.current = Type::ArrayVector4;
            },
            Any::ArrayMatrix4x4(v) => {
                let a = Arr::<Mat4x4>::from_slice(host, v.as_slice());
                proof {
                    assert forall|i: int| 0 <= i < v@.len() implies a@[i] == v@[i] by {}
                    assert(a@ =~= v@);
                }
                self.data = VarData::ArrayMatrix4x4(a);
                self.current = Type::ArrayMatrix4x4;
            },
        }
        self.live = true;
    }

    /// Replace the payload: release the current one, then install the
    /// new value.
    pub fn set(&mut self, host: &mut Host, value: &Any)
        requires
            old(self).wf(),
            old(self).is_live(),
            old(host).ready(),
        ensures
            installed(*final(self), *value),
            final(host).destroy_trace() == old(host).destroy_trace().push(SLOT_DESTROY_VARIANT),
            final(host).caps() == old(host).caps(),
    {
        self.destroy(host);
        self.construct(host, value);
    }

    /// Copy the active payload into a caller-owned tagged value, without
    /// altering the variant.
    ///
    /// The stored payload is a native sum type, so a discriminant naming
    /// no representable payload cannot arise here; the defensive
    /// degradation to the invalid kind lives in [`type_of_code`], where
    /// raw discriminant bytes from the boundary are decoded.
    pub fn get(&self) -> (r: Any)
        requires
            self.wf(),
            self.is_live(),
        ensures
            any_abs(r) == self.abs(),
    {
        match &self.data {
            VarData::Invalid => Any::Invalid,
            VarData::Bool(v) => Any::Bool(*v),
            VarData::Char8(v) => Any::Char8(*v),
            VarData::Char16(v) => Any::Char16(*v),
            VarData::Int8(v) => Any::Int8(*v),
            VarData::Int16(v) => Any::Int16(*v),
            VarData::Int32(v) => Any::Int32(*v),
            VarData::Int64(v) => Any::Int64(*v),
            VarData::UInt8(v) => Any::UInt8(*v),
            VarData::UInt16(v) => Any::UInt16(*v),
            VarData::UInt32(v) => Any::UInt32(*v),
            VarData::UInt64(v) => Any::UInt64(*v),
            VarData::Pointer(v) => Any::Pointer(*v),
            VarData::Float(v) => Any::Float(*v),
            VarData::Double(v) => Any::Double(*v),
            VarData::Vector2(v) => Any::Vector2(*v),
            VarData::Vector3(v) => Any::Vector3(*v),
            VarData::Vector4(v) => Any::Vector4(*v),
            VarData::String(v) => Any::String(v.to_string()),
            VarData::ArrayString(a) => {
                let out = a.to_string();
                proof {
                    assert forall|i: int| #![trigger out@[i]] 0 <= i < out@.len() implies out@[i]@
                        == a@[i]@ by {}
                    assert(out@.map_values(|x: String| x@) =~= a@.map_values(|x: Str| x@));
                }
                Any::ArrayString(out)
            },
            VarData::ArrayBool(a) => Any::ArrayBool(copy_out(a)),
            VarData::ArrayChar8(a) => Any::ArrayChar8(copy_out(a)),
            VarData::ArrayChar16(a) => Any::ArrayChar16(copy_out(a)),
            VarData::ArrayInt8(a) => Any::ArrayInt8(copy_out(a)),
            VarData::ArrayInt16(a) => Any::ArrayInt16(copy_out(a)),
            VarData::ArrayInt32(a) => Any::ArrayInt32(copy_out(a)),
            VarData::ArrayInt64(a) => Any::ArrayInt64(copy_out(a)),
            VarData::ArrayUInt8(a) => Any::ArrayUInt8(copy_out(a)),
            VarData::ArrayUInt16(a) => Any::ArrayUInt16(copy_out(a)),
            VarData::ArrayUInt32(a) => Any::ArrayUInt32(copy_out(a)),
            VarData::ArrayUInt64(a) => Any::ArrayUInt64(copy_out(a)),
            VarData::ArrayPointer(a) => Any::ArrayPointer(copy_out(a)),
            VarData::ArrayFloat(a) => Any::ArrayFloat(copy_out(a)),
            VarData::ArrayDouble(a) => Any::ArrayDouble(copy_out(a)),
            VarData::ArrayVector2(a) => Any::ArrayVector2(copy_out(a)),
            VarData::ArrayVector3(a) => Any::ArrayVector3(copy_out(a)),
            VarData::ArrayVector4(a) => Any::ArrayVector4(copy_out(a)),
            VarData::ArrayMatrix4x4(a) => Any::ArrayMatrix4x4(copy_out(a)),
        }
    }

    /// The discriminant: which payload kind is active.
    pub fn current(&self) -> (t: Type)
        ensures
            t == self.current_spec(),
    {
        self.current
    }

    /// Release the active payload through the single foreign
    /// variant-destroy entry point, exactly once; that entry point frees
    /// whatever the discriminant says is owned.
    ///
    /// The host records the invocation; afterwards the variant is dead
    /// and no mutating or reading operation accepts it until it is
    /// reconstructed.
    pub fn destroy(&mut self, host: &mut Host)
        requires
            old(self).is_live(),
            old(host).ready(),
        ensures
            final(self).wf(),
            !final(self).is_live(),
            final(self).abs() == AnyAbs::Invalid,
            final(self).current_spec() == Type::Invalid,
            final(host).destroy_trace() == old(host).destroy_trace().push(SLOT_DESTROY_VARIANT),
            final(host).caps() == old(host).caps(),
    {
        self.data = VarData::Invalid;
        self.current = Type::Invalid;
        self.live = false;
        host.record_destroy(SLOT_DESTROY_VARIANT);
    }
}

/// A well-formed variant's discriminant names exactly the kind of its
/// abstract content.
pub proof fn lemma_discriminant_matches(v: Var)
    requires
        v.wf(),
    ensures
        v.current_spec() == abs_tag(v.abs()),
{
}

/// Reading a variant yields exactly what was installed: the content and
/// the kind of the value the variant was constructed from.
pub proof fn lemma_install_then_get(v: Var, put: Any, got: Any)
    requires
        installed(v, put),
        any_abs(got) == v.abs(),
    ensures
        any_abs(got) == any_abs(put),
        any_tag(got) == any_tag(put),
{
    lemma_any_tag_abs(got);
    lemma_any_tag_abs(put);
}

impl ArrOps for Var {
    /// Arrays of variants use the variant kind's entry points.
    open spec fn kind() -> ElemKind {
        ElemKind::Variant
    }

    fn elem_kind() -> (k: ElemKind) {
        ElemKind::Variant
    }

    open spec fn inv(&self) -> bool {
        self.wf() && self.is_live()
    }

    open spec fn like(&self, other: &Self) -> bool {
        self.abs() == other.abs()
    }

    /// A deep copy through the public interface: read the payload out,
    /// then construct a fresh variant from it — never a raw bit copy,
    /// which would create two owners of one foreign allocation.
    fn dup(&self, host: &Host) -> (r: Self) {
        let value = self.get();
        Var::new(host, &value)
    }
}

impl Arr<Var> {
    /// An owned copy of every element's payload.
    pub fn to_any(&self) -> (out: Vec<Any>)
        requires
            self.is_live(),
            forall|i: int|
                #![trigger self@[i]]
                0 <= i < self@.len() ==> self@[i].wf() && self@[i].is_live(),
        ensures
            out@.len() == self@.len(),
            forall|i: int|
                #![trigger out@[i]]
                0 <= i < self@.len() ==> any_abs(out@[i]) == self@[i].abs(),
    {
        let s = self.as_slice();
        let mut out: Vec<Any> = Vec::new();
        let mut i: usize = 0;
        while i < s.len()
            invariant
                s@ == self@,
                i <= self@.len(),
                forall|j: int|
                    #![trigger self@[j]]
                    0 <= j < self@.len() ==> self@[j].wf() && self@[j].is_live(),
                out@.len() == i,
                forall|j: int|
                    #![trigger out@[j]]
                    0 <= j < i ==> any_abs(out@[j]) == self@[j].abs(),
            decreases self@.len() - i,
        {
            out.push(s[i].get());
            i = i + 1;
        }
        out
    }

    /// Construct an array of variants from caller-owned tagged values.
    pub fn from_anys(host: &Host, data: &[Any]) -> (a: Arr<Var>)
        requires
            host.ready(),
        ensures
            a.is_live(),
            a@.len() == data@.len(),
            forall|i: int|
                #![trigger a@[i]]
                0 <= i < data@.len() ==> a@[i].wf() && a@[i].is_live() && a@[i].abs()
                    == any_abs(data@[i]),
    {
        let mut vars: Vec<Var> = Vec::new();
        let mut i: usize = 0;
        while i < data.len()
            invariant
                host.ready(),
                i <= data@.len(),
                vars@.len() == i,
                forall|j: int|
                    #![trigger vars@[j]]
                    0 <= j < i ==> installed(vars@[j], data@[j]),
            decreases data@.len() - i,
        {
            vars.push(Var::new(host, &data[i]));
            i = i + 1;
        }
        let a = Arr::<Var>::from_slice(host, vars.as_slice());
        proof {
            assert forall|i: int| 0 <= i < data@.len() implies (#[trigger] a@[i]).wf()
                && a@[i].is_live() && a@[i].abs() == any_abs(data@[i]) by {
                assert(a@[i].like(&vars@[i]));
            }
        }
        a
    }
}

/// The byte value of a discriminant: its position in the declaration
/// order, which is the value the ABI shares with the host.
pub open spec fn type_code(t: Type) -> u8 {
    match t {
        Type::Invalid => 0,
        Type::Void => 1,
        Type::Bool => 2,
        Type::Char8 => 3,
        Type::Char16 => 4,
        Type::Int8 => 5,
        Type::Int16 => 6,
        Type::Int32 => 7,
        Type::Int64 => 8,
        Type::UInt8 => 9,
        Type::UInt16 => 10,
        Type::UInt32 => 11,
        Type::UInt64 => 12,
        Type::Pointer => 13,
        Type::Float => 14,
        Type::Double => 15,
        Type::Function => 16,
        Type::String => 17,
        Type::Any => 18,
        Type::ArrayBool => 19,
        Type::ArrayChar8 => 20,
        Type::ArrayChar16 => 21,
        Type::ArrayInt8 => 22,
        Type::ArrayInt16 => 23,
        Type::ArrayInt32 => 24,
        Type::ArrayInt64 => 25,
        Type::ArrayUInt8 => 26,
        Type::ArrayUInt16 => 27,
        Type::ArrayUInt32 => 28,
        Type::ArrayUInt64 => 29,
        Type::ArrayPointer => 30,
        Type::ArrayFloat => 31,
        Type::ArrayDouble => 32,
        Type::ArrayString => 33,
        Type::ArrayAny => 34,
        Type::ArrayVector2 => 35,
        Type::ArrayVector3 => 36,
        Type::ArrayVector4 => 37,
        Type::ArrayMatrix4x4 => 38,
        Type::Vector2 => 39,
        Type::Vector3 => 40,
        Type::Vector4 => 41,
        Type::Matrix4x4 => 42,
    }
}

/// The discriminant a byte value stands for; bytes beyond the known
/// range degrade to the invalid kind.
pub open spec fn type_of_code(r: u8) -> Type {
    match r {
        0 => Type::Invalid,
        1 => Type::Void,
        2 => Type::Bool,
        3 => Type::Char8,
        4 => Type::Char16,
        5 => Type::Int8,
        6 => Type::Int16,
        7 => Type::Int32,
        8 => Type::Int64,
        9 => Type::UInt8,
        10 => Type::UInt16,
        11 => Type::UInt32,
        12 => Type::UInt64,
        13 => Type::Pointer,
        14 => Type::Float,
        15 => Type::Double,
        16 => Type::Function,
        17 => Type::String,
        18 => Type::Any,
        19 => Type::ArrayBool,
        20 => Type::ArrayChar8,
        21 => Type::ArrayChar16,
        22 => Type::ArrayInt8,
        23 => Type::ArrayInt16,
        24 => Type::ArrayInt32,
        25 => Type::ArrayInt64,
        26 => Type::ArrayUInt8,
        27 => Type::ArrayUInt16,
        28 => Type::ArrayUInt32,
        29 => Type::ArrayUInt64,
        30 => Type::ArrayPointer,
        31 => Type::ArrayFloat,
        32 => Type::ArrayDouble,
        33 => Type::ArrayString,
        34 => Type::ArrayAny,
        35 => Type::ArrayVector2,
        36 => Type::ArrayVector3,
        37 => Type::ArrayVector4,
        38 => Type::ArrayMatrix4x4,
        39 => Type::Vector2,
        40 => Type::Vector3,
        41 => Type::Vector4,
        42 => Type::Matrix4x4,
        _ => Type::Invalid,
    }
}

impl CEnumRepr for Type {
    type ReprInt = u8;

    open spec fn to_repr_spec(self) -> u8 {
        type_code(self)
    }

    open spec fn from_repr_spec(r: u8) -> Type {
        type_of_code(r)
    }

    proof fn lemma_repr_roundtrip(e: Self) {
    }

    proof fn lemma_repr_like_is_eq(a: u8, b: u8) {
    }

    fn to_repr(self) -> (r: u8) {
        match self {
            Type::Invalid => 0,
            Type::Void => 1,
            Type::Bool => 2,
            Type::Char8 => 3,
            Type::Char16 => 4,
            Type::Int8 => 5,
            Type::Int16 => 6,
            Type::Int32 => 7,
            Type::Int64 => 8,
            Type::UInt8 => 9,
            Type::UInt16 => 10,
            Type::UInt32 => 11,
            Type::UInt64 => 12,
            Type::Pointer => 13,
            Type::Float => 14,
            Type::Double => 15,
            Type::Function => 16,
            Type::String => 17,
            Type::Any => 18,
            Type::ArrayBool => 19,
            Type::ArrayChar8 => 20,
            Type::ArrayChar16 => 21,
            Type::ArrayInt8 => 22,
            Type::ArrayInt16 => 23,
            Type::ArrayInt32 => 24,
            Type::ArrayInt64 => 25,
            Type::ArrayUInt8 => 26,
            Type::ArrayUInt16 => 27,
            Type::ArrayUInt32 => 28,
            Type::ArrayUInt64 => 29,
            Type::ArrayPointer => 30,
            Type::ArrayFloat => 31,
            Type::ArrayDouble => 32,
            Type::ArrayString => 33,
            Type::ArrayAny => 34,
            Type::ArrayVector2 => 35,
            Type::ArrayVector3 => 36,
            Type::ArrayVector4 => 37,
            Type::ArrayMatrix4x4 => 38,
            Type::Vector2 => 39,
            Type::Vector3 => 40,
            Type::Vector4 => 41,
            Type::Matrix4x4 => 42,
        }
    }

    fn from_repr(r: u8) -> (e: Type) {
        match r {
            0 => Type::Invalid,
            1 => Type::Void,
            2 => Type::Bool,
            3 => Type::Char8,
            4 => Type::Char16,
            5 => Type::Int8,
            6 => Type::Int16,
            7 => Type::Int32,
            8 => Type::Int64,
            9 => Type::UInt8,
            10 => Type::UInt16,
            11 => Type::UInt32,
            12 => Type::UInt64,
            13 => Type::Pointer,
            14 => Type::Float,
            15 => Type::Double,
            16 => Type::Function,
            17 => Type::String,
            18 => Type::Any,
            19 => Type::ArrayBool,
            20 => Type::ArrayChar8,
            21 => Type::ArrayChar16,
            22 => Type::ArrayInt8,
            23 => Type::ArrayInt16,
            24 => Type::ArrayInt32,
            25 => Type::ArrayInt64,
            26 => Type::ArrayUInt8,
            27 => Type::ArrayUInt16,
            28 => Type::ArrayUInt32,
            29 => Type::ArrayUInt64,
            30 => Type::ArrayPointer,
            31 => Type::ArrayFloat,
            32 => Type::ArrayDouble,
            33 => Type::ArrayString,
            34 => Type::ArrayAny,
            35 => Type::ArrayVector2,
            36 => Type::ArrayVector3,
            37 => Type::ArrayVector4,
            38 => Type::ArrayMatrix4x4,
            39 => Type::Vector2,
            40 => Type::Vector3,
            41 => Type::Vector4,
            42 => Type::Matrix4x4,
            _ => Type::Invalid,
        }
    }
}

} // verus!
