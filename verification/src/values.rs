//! Bit-exact carriers for the payload kinds whose host-side representation
//! is an IEEE-754 value or a small aggregate of them.
//!
//! This layer is a byte-layout-compatible bridge: it transports such
//! values across the boundary without ever interpreting them numerically.
//! Each carrier therefore holds the exact bit patterns of the components,
//! which is all the marshaling contract speaks about.

use vstd::prelude::*;

use crate::host::Host;
use crate::kinds::ElemKind;
use crate::vector::ArrOps;

verus! {

/// The bit pattern of a 32-bit float payload.
#[derive(Clone, Copy, PartialEq, Eq, Debug, Structural)]
pub struct Float32 {
    pub bits: u32,
}

/// The bit pattern of a 64-bit float payload.
#[derive(Clone, Copy, PartialEq, Eq, Debug, Structural)]
pub struct Float64 {
    pub bits: u64,
}

/// A two-component vector payload, one 32-bit pattern per component.
#[derive(Clone, Copy, PartialEq, Eq, Debug)]
pub struct Vec2 {
    pub bits: [u32; 2],
}

/// A three-component vector payload, one 32-bit pattern per component.
#[derive(Clone, Copy, PartialEq, Eq, Debug)]
pub struct Vec3 {
    pub bits: [u32; 3],
}

/// A four-component vector payload, one 32-bit pattern per component.
#[derive(Clone, Copy, PartialEq, Eq, Debug)]
pub struct Vec4 {
    pub bits: [u32; 4],
}

/// A four-by-four matrix payload in row-major order, one 32-bit pattern
/// per entry.
#[derive(Clone, Copy, PartialEq, Eq, Debug)]
pub struct Mat4x4 {
    pub bits: [u32; 16],
}

impl ArrOps for Float32 {
    open spec fn kind() -> ElemKind {
        ElemKind::Float
    }

    fn elem_kind() -> (k: ElemKind) {
        ElemKind::Float
    }

    open spec fn inv(&self) -> bool {
        true
    }

    open spec fn like(&self, other: &Self) -> bool {
        self == other
    }

    fn dup(&self, host: &Host) -> (r: Self) {
        *self
    }
}

impl ArrOps for Float64 {
    open spec fn kind() -> ElemKind {
        ElemKind::Double
    }

    fn elem_kind() -> (k: ElemKind) {
        ElemKind::Double
    }

    open spec fn inv(&self) -> bool {
        true
    }

    open spec fn like(&self, other: &Self) -> bool {
        self == other
    }

    fn dup(&self, host: &Host) -> (r: Self) {
        *self
    }
}

impl ArrOps for Vec2 {
    open spec fn kind() -> ElemKind {
        ElemKind::Vector2
    }

    fn elem_kind() -> (k: ElemKind) {
        ElemKind::Vector2
    }

    open spec fn inv(&self) -> bool {
        true
    }

    open spec fn like(&self, other: &Self) -> bool {
        self == other
    }

    fn dup(&self, host: &Host) -> (r: Self) {
        *self
    }
}

impl ArrOps for Vec3 {
    open spec fn kind() -> ElemKind {
        ElemKind::Vector3
    }

    fn elem_kind() -> (k: ElemKind) {
        ElemKind::Vector3
    }

    open spec fn inv(&self) -> bool {
        true
    }

    open spec fn like(&self, other: &Self) -> bool {
        self == other
    }

    fn dup(&self, host: &Host) -> (r: Self) {
        *self
    }
}

impl ArrOps for Vec4 {
    open spec fn kind() -> ElemKind {
        ElemKind::Vector4
    }

    fn elem_kind() -> (k: ElemKind) {
        ElemKind::Vector4
    }

    open spec fn inv(&self) -> bool {
        true
    }

    open spec fn like(&self, other: &Self) -> bool {
        self == other
    }

    fn dup(&self, host: &Host) -> (r: Self) {
        *self
    }
}

impl ArrOps for Mat4x4 {
    open spec fn kind() -> ElemKind {
        ElemKind::Matrix4x4
    }

    fn elem_kind() -> (k: ElemKind) {
        ElemKind::Matrix4x4
    }

    open spec fn inv(&self) -> bool {
        true
    }

    open spec fn like(&self, other: &Self) -> bool {
        self == other
    }

    fn dup(&self, host: &Host) -> (r: Self) {
        *self
    }
}

} // verus!
