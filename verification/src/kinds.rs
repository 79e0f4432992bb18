//! The element kinds the host supports, and the fixed order in which the
//! address table lists the capability slots.
//!
//! For every element kind the host exposes a distinct quadruple-plus-one of
//! vector entry points (construct, destroy, size, data, assign).  The order
//! of the slots in the address table is itself part of the ABI: the table
//! starts with the directory and lookup getters, then the plugin metadata
//! getters, the string operations, the variant destroy entry, and finally
//! the five vector operation groups, each holding one slot per element kind
//! in the enumeration order of [`ElemKind`].

use vstd::prelude::*;

verus! {

/// An element kind with its own quadruple-plus-one of vector entry points.
#[derive(Clone, Copy, PartialEq, Eq, Debug, Structural)]
pub enum ElemKind {
    Bool,
    Char8,
    Char16,
    Int8,
    Int16,
    Int32,
    Int64,
    UInt8,
    UInt16,
    UInt32,
    UInt64,
    Pointer,
    Float,
    Double,
    String,
    Variant,
    Vector2,
    Vector3,
    Vector4,
    Matrix4x4,
}

/// How many element kinds the host supports.
pub const KIND_COUNT: usize = 20;

/// Slot of the method lookup entry point.
pub const SLOT_GET_METHOD_PTR: usize = 0;

/// First slot of the six directory getters (base, extensions, configs,
/// data, logs, cache — in that order).
pub const SLOT_DIRS_BASE: usize = 1;

/// How many directory getters the table holds.
pub const DIR_COUNT: usize = 6;

/// Slot of the extension-loaded query.
pub const SLOT_IS_EXTENSION_LOADED: usize = 7;

/// First slot of the nine plugin metadata getters (id, name, description,
/// version, author, website, license, location, dependencies — in that
/// order).
pub const SLOT_PLUGIN_BASE: usize = 8;

/// How many plugin metadata getters the table holds.
pub const PLUGIN_GETTER_COUNT: usize = 9;

/// Slot of the string construct entry point.
pub const SLOT_CONSTRUCT_STRING: usize = 17;

/// Slot of the string destroy entry point.
pub const SLOT_DESTROY_STRING: usize = 18;

/// Slot of the string data getter.
pub const SLOT_STRING_DATA: usize = 19;

/// Slot of the string length getter.
pub const SLOT_STRING_LENGTH: usize = 20;

/// Slot of the string assign entry point.
pub const SLOT_ASSIGN_STRING: usize = 21;

/// Slot of the single variant destroy entry point.
pub const SLOT_DESTROY_VARIANT: usize = 22;

/// First slot of the vector construct group.
pub const VECTOR_CONSTRUCT_BASE: usize = 23;

/// First slot of the vector destroy group.
pub const VECTOR_DESTROY_BASE: usize = VECTOR_CONSTRUCT_BASE + KIND_COUNT;

/// First slot of the vector size group.
pub const VECTOR_SIZE_BASE: usize = VECTOR_DESTROY_BASE + KIND_COUNT;

/// First slot of the vector data group.
pub const VECTOR_DATA_BASE: usize = VECTOR_SIZE_BASE + KIND_COUNT;

/// First slot of the vector assign group.
pub const VECTOR_ASSIGN_BASE: usize = VECTOR_DATA_BASE + KIND_COUNT;

/// How many capability slots the address table must provide.
pub const SLOT_COUNT: usize = VECTOR_ASSIGN_BASE + KIND_COUNT;

/// The position of a kind in the enumeration order that every vector
/// operation group follows.
pub open spec fn kind_index(k: ElemKind) -> int {
    match k {
        ElemKind::Bool => 0,
        ElemKind::Char8 => 1,
        ElemKind::Char16 => 2,
        ElemKind::Int8 => 3,
        ElemKind::Int16 => 4,
        ElemKind::Int32 => 5,
        ElemKind::Int64 => 6,
        ElemKind::UInt8 => 7,
        ElemKind::UInt16 => 8,
        ElemKind::UInt32 => 9,
        ElemKind::UInt64 => 10,
        ElemKind::Pointer => 11,
        ElemKind::Float => 12,
        ElemKind::Double => 13,
        ElemKind::String => 14,
        ElemKind::Variant => 15,
        ElemKind::Vector2 => 16,
        ElemKind::Vector3 => 17,
        ElemKind::Vector4 => 18,
        ElemKind::Matrix4x4 => 19,
    }
}

/// The kind that sits at a position of the enumeration order.
pub open spec fn kind_of_index(i: int) -> ElemKind {
    if i == 0 {
        ElemKind::Bool
    } else if i == 1 {
        ElemKind::Char8
    } else if i == 2 {
        ElemKind::Char16
    } else if i == 3 {
        ElemKind::Int8
    } else if i == 4 {
        ElemKind::Int16
    } else if i == 5 {
        ElemKind::Int32
    } else if i == 6 {
        ElemKind::Int64
    } else if i == 7 {
        ElemKind::UInt8
    } else if i == 8 {
        ElemKind::UInt16
    } else if i == 9 {
        ElemKind::UInt32
    } else if i == 10 {
        ElemKind::UInt64
    } else if i == 11 {
        ElemKind::Pointer
    } else if i == 12 {
        ElemKind::Float
    } else if i == 13 {
        ElemKind::Double
    } else if i == 14 {
        ElemKind::String
    } else if i == 15 {
        ElemKind::Variant
    } else if i == 16 {
        ElemKind::Vector2
    } else if i == 17 {
        ElemKind::Vector3
    } else if i == 18 {
        ElemKind::Vector4
    } else {
        ElemKind::Matrix4x4
    }
}

/// The position of a kind, at run time.
pub fn kind_index_of(k: ElemKind) -> (i: usize)
    ensures
        i == kind_index(k),
{
    match k {
        ElemKind::Bool => 0,
        ElemKind::Char8 => 1,
        ElemKind::Char16 => 2,
        ElemKind::Int8 => 3,
        ElemKind::Int16 => 4,
        ElemKind::Int32 => 5,
        ElemKind::Int64 => 6,
        ElemKind::UInt8 => 7,
        ElemKind::UInt16 => 8,
        ElemKind::UInt32 => 9,
        ElemKind::UInt64 => 10,
        ElemKind::Pointer => 11,
        ElemKind::Float => 12,
        ElemKind::Double => 13,
        ElemKind::String => 14,
        ElemKind::Variant => 15,
        ElemKind::Vector2 => 16,
        ElemKind::Vector3 => 17,
        ElemKind::Vector4 => 18,
        ElemKind::Matrix4x4 => 19,
    }
}

/// Every kind has a position inside the vector operation groups.
pub proof fn lemma_kind_index_in_range(k: ElemKind)
    ensures
        0 <= kind_index(k) < KIND_COUNT,
{
}

/// The enumeration order assigns each kind its own position: recovering the
/// kind from its position gives the kind back, so no two kinds share a
/// quadruple of vector entry points.
pub proof fn lemma_kind_index_injective(k: ElemKind)
    ensures
        kind_of_index(kind_index(k)) == k,
{
}

/// Slot of the vector construct entry point for a kind.
pub open spec fn construct_slot(k: ElemKind) -> int {
    VECTOR_CONSTRUCT_BASE + kind_index(k)
}

/// Slot of the vector destroy entry point for a kind.
pub open spec fn destroy_slot(k: ElemKind) -> int {
    VECTOR_DESTROY_BASE + kind_index(k)
}

/// Slot of the vector size entry point for a kind.
pub open spec fn size_slot(k: ElemKind) -> int {
    VECTOR_SIZE_BASE + kind_index(k)
}

/// Slot of the vector data entry point for a kind.
pub open spec fn data_slot(k: ElemKind) -> int {
    VECTOR_DATA_BASE + kind_index(k)
}

/// Slot of the vector assign entry point for a kind.
pub open spec fn assign_slot(k: ElemKind) -> int {
    VECTOR_ASSIGN_BASE + kind_index(k)
}

/// All five entry points of a kind lie inside the table.
pub proof fn lemma_kind_slots_in_range(k: ElemKind)
    ensures
        VECTOR_CONSTRUCT_BASE <= construct_slot(k) < VECTOR_DESTROY_BASE,
        VECTOR_DESTROY_BASE <= destroy_slot(k) < VECTOR_SIZE_BASE,
        VECTOR_SIZE_BASE <= size_slot(k) < VECTOR_DATA_BASE,
        VECTOR_DATA_BASE <= data_slot(k) < VECTOR_ASSIGN_BASE,
        VECTOR_ASSIGN_BASE <= assign_slot(k) < SLOT_COUNT,
{
    lemma_kind_index_in_range(k);
}

} // verus!
