use plugify::host::{Host, API_VERSION};
use plugify::kinds::{SLOT_COUNT, SLOT_DESTROY_VARIANT};
use plugify::values::{Float32, Float64, Mat4x4, Vec2, Vec3, Vec4};
use plugify::variant::{Any, Type, Var};
use plugify::vector::ArrOps;

fn bound_host() -> Host {
    let mut h = Host::new();
    let table: Vec<usize> = (0..SLOT_COUNT).map(|i| 0x1000 + i).collect();
    assert_eq!(h.bind(&table, API_VERSION), 0);
    h
}

fn check(h: &Host, value: Any, tag: Type) {
    let v = Var::new(h, &value);
    assert_eq!(v.current(), tag);
    assert_eq!(v.get(), value);
    // Reading is non-destructive: a second read agrees.
    assert_eq!(v.current(), tag);
    assert_eq!(v.get(), value);
}

#[test]
fn holds_invalid() {
    let h = bound_host();
    check(&h, Any::Invalid, Type::Invalid);
}

#[test]
fn holds_scalars() {
    let h = bound_host();
    check(&h, Any::Bool(true), Type::Bool);
    check(&h, Any::Char8(-7), Type::Char8);
    check(&h, Any::Char16(700), Type::Char16);
    check(&h, Any::Int8(-8), Type::Int8);
    check(&h, Any::Int16(-1600), Type::Int16);
    check(&h, Any::Int32(-320000), Type::Int32);
    check(&h, Any::Int64(i64::MIN), Type::Int64);
    check(&h, Any::UInt8(8), Type::UInt8);
    check(&h, Any::UInt16(1600), Type::UInt16);
    check(&h, Any::UInt32(320000), Type::UInt32);
    check(&h, Any::UInt64(u64::MAX), Type::UInt64);
    check(&h, Any::Pointer(0xbeef), Type::Pointer);
    check(&h, Any::Float(Float32 { bits: 1.25f32.to_bits() }), Type::Float);
    check(&h, Any::Double(Float64 { bits: 9.5f64.to_bits() }), Type::Double);
}

#[test]
fn holds_string() {
    let h = bound_host();
    check(&h, Any::String(String::from("inner")), Type::String);
}

#[test]
fn holds_value_vectors() {
    let h = bound_host();
    check(&h, Any::Vector2(Vec2 { bits: [1, 2] }), Type::Vector2);
    check(&h, Any::Vector3(Vec3 { bits: [1, 2, 3] }), Type::Vector3);
    check(&h, Any::Vector4(Vec4 { bits: [1, 2, 3, 4] }), Type::Vector4);
}

#[test]
fn holds_scalar_arrays() {
    let h = bound_host();
    check(&h, Any::ArrayBool(vec![true, false]), Type::ArrayBool);
    check(&h, Any::ArrayChar8(vec![-1i8, 2]), Type::ArrayChar8);
    check(&h, Any::ArrayChar16(vec![1u16, 2]), Type::ArrayChar16);
    check(&h, Any::ArrayInt8(vec![-3i8]), Type::ArrayInt8);
    check(&h, Any::ArrayInt16(vec![-4i16]), Type::ArrayInt16);
    check(&h, Any::ArrayInt32(vec![-5i32]), Type::ArrayInt32);
    check(&h, Any::ArrayInt64(vec![-6i64]), Type::ArrayInt64);
    check(&h, Any::ArrayUInt8(vec![3u8]), Type::ArrayUInt8);
    check(&h, Any::ArrayUInt16(vec![4u16]), Type::ArrayUInt16);
    check(&h, Any::ArrayUInt32(vec![5u32]), Type::ArrayUInt32);
    check(&h, Any::ArrayUInt64(vec![6u64]), Type::ArrayUInt64);
    check(&h, Any::ArrayPointer(vec![7usize]), Type::ArrayPointer);
    check(
        &h,
        Any::ArrayFloat(vec![Float32 { bits: 0.5f32.to_bits() }]),
        Type::ArrayFloat,
    );
    check(
        &h,
        Any::ArrayDouble(vec![Float64 { bits: 0.25f64.to_bits() }]),
        Type::ArrayDouble,
    );
}

#[test]
fn holds_aggregate_arrays() {
    let h = bound_host();
    check(
        &h,
        Any::ArrayString(vec![String::from("a"), String::from("b")]),
        Type::ArrayString,
    );
    check(&h, Any::ArrayVector2(vec![Vec2 { bits: [1, 2] }]), Type::ArrayVector2);
    check(&h, Any::ArrayVector3(vec![Vec3 { bits: [1, 2, 3] }]), Type::ArrayVector3);
    check(&h, Any::ArrayVector4(vec![Vec4 { bits: [1, 2, 3, 4] }]), Type::ArrayVector4);
    check(&h, Any::ArrayMatrix4x4(vec![Mat4x4 { bits: [9; 16] }]), Type::ArrayMatrix4x4);
}

#[test]
fn scenario_array_then_bool() {
    // Install an owned array, read it back, then replace it with a
    // scalar: the prior payload is released exactly once during the
    // transition.
    let mut h = bound_host();
    let mut v = Var::new(&h, &Any::ArrayInt32(vec![1, 2, 3]));
    assert_eq!(v.get(), Any::ArrayInt32(vec![1, 2, 3]));
    assert_eq!(v.current(), Type::ArrayInt32);
    let before = h.destroy_count();
    v.set(&mut h, &Any::Bool(true));
    assert_eq!(v.current(), Type::Bool);
    assert_eq!(v.get(), Any::Bool(true));
    assert_eq!(h.destroy_count(), before + 1);
    assert_eq!(h.destroyed_at(before), SLOT_DESTROY_VARIANT);
}

#[test]
fn set_replaces_any_payload() {
    let mut h = bound_host();
    let mut v = Var::new(&h, &Any::String(String::from("old")));
    v.set(&mut h, &Any::String(String::from("new")));
    assert_eq!(v.get(), Any::String(String::from("new")));
    v.set(&mut h, &Any::Invalid);
    assert_eq!(v.current(), Type::Invalid);
    assert_eq!(v.get(), Any::Invalid);
}

#[test]
fn variant_destroy_releases_exactly_once() {
    let mut h = bound_host();
    {
        let mut v = Var::new(&h, &Any::ArrayUInt8(vec![1, 2]));
        v.destroy(&mut h);
        assert_eq!(v.current(), Type::Invalid);
        assert_eq!(h.destroy_count(), 1);
        assert_eq!(h.destroyed_at(0), SLOT_DESTROY_VARIANT);
    }
    assert_eq!(h.destroy_count(), 1);
}

#[test]
fn set_always_goes_through_the_destroy_entry() {
    // The replace path releases through the single variant-destroy
    // entry point even when the prior payload is the invalid one, which
    // frees nothing on the host side.
    let mut h = bound_host();
    let mut v = Var::new(&h, &Any::Invalid);
    v.set(&mut h, &Any::UInt8(1));
    assert_eq!(h.destroy_count(), 1);
    assert_eq!(h.destroyed_at(0), SLOT_DESTROY_VARIANT);
}

#[test]
fn dup_is_a_deep_copy() {
    let mut h = bound_host();
    let mut v = Var::new(&h, &Any::ArrayInt32(vec![4, 5]));
    let d = v.dup(&h);
    v.set(&mut h, &Any::Bool(false));
    assert_eq!(d.get(), Any::ArrayInt32(vec![4, 5]));
    assert_eq!(v.get(), Any::Bool(false));
}

#[test]
fn scalar_payload_needs_no_capability() {
    // A payload that owns no foreign allocation can be installed before
    // the address table is bound, as no entry point is called for it.
    let h = Host::new();
    let v = Var::new(&h, &Any::Int32(11));
    assert_eq!(v.current(), Type::Int32);
    assert_eq!(v.get(), Any::Int32(11));
}
