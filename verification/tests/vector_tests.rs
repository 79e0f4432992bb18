use plugify::host::{Host, API_VERSION};
use plugify::kinds::{SLOT_COUNT, VECTOR_DESTROY_BASE};
use plugify::string::Str;
use plugify::values::{Float32, Float64, Mat4x4, Vec2, Vec3, Vec4};
use plugify::variant::{Any, Type, Var};
use plugify::vector::{copy_out, Arr, ArrOps, CEnumRepr};

fn bound_host() -> Host {
    let mut h = Host::new();
    let table: Vec<usize> = (0..SLOT_COUNT).map(|i| 0x1000 + i).collect();
    assert_eq!(h.bind(&table, API_VERSION), 0);
    h
}

#[test]
fn round_trip_bool() {
    let h = bound_host();
    let data = [true, false, true];
    let a = Arr::from_slice(&h, &data);
    assert_eq!(a.len(), 3);
    assert_eq!(a.as_slice(), &data);
}

#[test]
fn round_trip_i8() {
    let h = bound_host();
    let data: [i8; 4] = [-1, 0, 1, 127];
    let a = Arr::from_slice(&h, &data);
    assert_eq!(a.as_slice(), &data);
}

#[test]
fn round_trip_i16() {
    let h = bound_host();
    let data: [i16; 3] = [-300, 0, 300];
    let a = Arr::from_slice(&h, &data);
    assert_eq!(a.as_slice(), &data);
}

#[test]
fn round_trip_i32() {
    let h = bound_host();
    let data: [i32; 3] = [-70000, 0, 70000];
    let a = Arr::from_slice(&h, &data);
    assert_eq!(a.as_slice(), &data);
}

#[test]
fn round_trip_i64() {
    let h = bound_host();
    let data: [i64; 2] = [i64::MIN, i64::MAX];
    let a = Arr::from_slice(&h, &data);
    assert_eq!(a.as_slice(), &data);
}

#[test]
fn round_trip_u8() {
    let h = bound_host();
    let data: [u8; 3] = [0, 128, 255];
    let a = Arr::from_slice(&h, &data);
    assert_eq!(a.as_slice(), &data);
}

#[test]
fn round_trip_u16() {
    let h = bound_host();
    let data: [u16; 3] = [0, 1000, u16::MAX];
    let a = Arr::from_slice(&h, &data);
    assert_eq!(a.as_slice(), &data);
}

#[test]
fn round_trip_u32() {
    let h = bound_host();
    let data: [u32; 3] = [0, 1, u32::MAX];
    let a = Arr::from_slice(&h, &data);
    assert_eq!(a.as_slice(), &data);
}

#[test]
fn round_trip_u64() {
    let h = bound_host();
    let data: [u64; 3] = [0, 1, u64::MAX];
    let a = Arr::from_slice(&h, &data);
    assert_eq!(a.as_slice(), &data);
}

#[test]
fn round_trip_pointer() {
    let h = bound_host();
    let data: [usize; 3] = [0, 0xdead, usize::MAX];
    let a = Arr::from_slice(&h, &data);
    assert_eq!(a.as_slice(), &data);
}

#[test]
fn round_trip_float32_bits() {
    let h = bound_host();
    let data = [
        Float32 { bits: 1.5f32.to_bits() },
        Float32 { bits: (-0.0f32).to_bits() },
    ];
    let a = Arr::from_slice(&h, &data);
    assert_eq!(a.as_slice(), &data);
    assert_eq!(f32::from_bits(a.as_slice()[0].bits), 1.5);
}

#[test]
fn round_trip_float64_bits() {
    let h = bound_host();
    let data = [Float64 { bits: 2.25f64.to_bits() }];
    let a = Arr::from_slice(&h, &data);
    assert_eq!(f64::from_bits(a.as_slice()[0].bits), 2.25);
}

#[test]
fn round_trip_value_vectors() {
    let h = bound_host();
    let v2 = [Vec2 { bits: [1, 2] }];
    let v3 = [Vec3 { bits: [1, 2, 3] }];
    let v4 = [Vec4 { bits: [1, 2, 3, 4] }];
    let m = [Mat4x4 { bits: [7; 16] }];
    assert_eq!(Arr::from_slice(&h, &v2).as_slice(), &v2);
    assert_eq!(Arr::from_slice(&h, &v3).as_slice(), &v3);
    assert_eq!(Arr::from_slice(&h, &v4).as_slice(), &v4);
    assert_eq!(Arr::from_slice(&h, &m).as_slice(), &m);
}

#[test]
fn round_trip_strings() {
    let h = bound_host();
    let data = [Str::from_str(&h, "one"), Str::from_str(&h, "two")];
    let a = Arr::from_slice(&h, &data);
    assert_eq!(a.len(), 2);
    assert_eq!(a.as_slice()[0].as_str(), "one");
    assert_eq!(a.as_slice()[1].as_str(), "two");
}

#[test]
fn round_trip_variants() {
    let h = bound_host();
    let data = [Var::new(&h, &Any::Int32(5)), Var::new(&h, &Any::Bool(true))];
    let a = Arr::from_slice(&h, &data);
    assert_eq!(a.len(), 2);
    assert_eq!(a.as_slice()[0].get(), Any::Int32(5));
    assert_eq!(a.as_slice()[1].get(), Any::Bool(true));
}

#[test]
fn scenario_floats_then_replace() {
    let h = bound_host();
    let data = [
        Float32 { bits: 1.0f32.to_bits() },
        Float32 { bits: 2.0f32.to_bits() },
        Float32 { bits: 3.0f32.to_bits() },
    ];
    let mut a = Arr::from_slice(&h, &data);
    assert_eq!(a.len(), 3);
    assert_eq!(a.as_slice(), &data);
    a.set(&h, &[Float32 { bits: 4.0f32.to_bits() }]);
    assert_eq!(a.len(), 1);
    assert_eq!(f32::from_bits(a.as_slice()[0].bits), 4.0);
}

#[test]
fn new_is_empty() {
    let h = bound_host();
    let a: Arr<i32> = Arr::new(&h);
    assert!(a.is_empty());
    assert_eq!(a.len(), 0);
    assert_eq!(a.as_slice(), &[] as &[i32]);
}

#[test]
fn get_checks_bounds() {
    let h = bound_host();
    let a = Arr::from_slice(&h, &[10i32, 20]);
    assert_eq!(a.get(0), Some(&10));
    assert_eq!(a.get(1), Some(&20));
    assert_eq!(a.get(2), None);
}

#[test]
fn to_vec_copies() {
    let h = bound_host();
    let a = Arr::from_slice(&h, &[1u8, 2, 3]);
    assert_eq!(a.to_vec(&h), vec![1u8, 2, 3]);
    assert_eq!(copy_out(&a), vec![1u8, 2, 3]);
}

#[test]
fn as_mut_slice_edits_in_place() {
    let h = bound_host();
    let mut a = Arr::from_slice(&h, &[1i32, 2]);
    a.as_mut_slice()[0] = 9;
    assert_eq!(a.as_slice(), &[9, 2]);
}

#[test]
fn vector_destroy_releases_exactly_once() {
    let mut h = bound_host();
    {
        let mut a = Arr::from_slice(&h, &[1i32, 2, 3]);
        a.destroy(&mut h);
        assert_eq!(h.destroy_count(), 1);
        // The destroy went through the entry point of the int32 kind.
        assert_eq!(h.destroyed_at(0), VECTOR_DESTROY_BASE + 5);
    }
    assert_eq!(h.destroy_count(), 1);
}

#[test]
fn assign_is_not_a_destroy() {
    // Replacing the contents goes through the assign entry point, not
    // through a destroy entry point.
    let mut h = bound_host();
    let mut a = Arr::from_slice(&h, &[1i32, 2]);
    a.set(&h, &[3i32]);
    assert_eq!(a.as_slice(), &[3]);
    assert_eq!(h.destroy_count(), 0);
    a.destroy(&mut h);
    assert_eq!(h.destroy_count(), 1);
}

#[test]
fn string_array_conversions() {
    let h = bound_host();
    let native = [String::from("a"), String::from("bc")];
    let a = Arr::from_strings(&h, &native);
    assert_eq!(a.len(), 2);
    assert_eq!(a.to_string(), vec![String::from("a"), String::from("bc")]);
}

#[test]
fn variant_array_conversions() {
    let h = bound_host();
    let native = [Any::Bool(false), Any::String(String::from("v"))];
    let a = Arr::from_anys(&h, &native);
    assert_eq!(a.len(), 2);
    assert_eq!(a.to_any(), vec![Any::Bool(false), Any::String(String::from("v"))]);
}

#[test]
fn enum_adapter_matches_integer_path() {
    // Building an array of enum tags and an array of their backing
    // bytes gives bit-identical representations, position by position.
    let h = bound_host();
    let tags = [Type::Bool, Type::Int32, Type::ArrayString];
    let bytes: Vec<u8> = tags.iter().map(|t| t.to_repr()).collect();
    assert_eq!(bytes, vec![2u8, 7, 33]);
    let ae = Arr::from_slice(&h, &tags);
    let ar = Arr::from_slice(&h, bytes.as_slice());
    assert_eq!(ae.len(), ar.len());
    for i in 0..ae.len() {
        assert_eq!(ae.as_slice()[i].to_repr(), ar.as_slice()[i]);
    }
}

#[test]
fn enum_repr_round_trip() {
    let tags = [
        Type::Invalid,
        Type::Void,
        Type::Bool,
        Type::Function,
        Type::String,
        Type::ArrayMatrix4x4,
        Type::Vector4,
        Type::Matrix4x4,
    ];
    for t in tags {
        assert_eq!(Type::from_repr(t.to_repr()), t);
    }
    assert_eq!(Type::from_repr(200), Type::Invalid);
}

#[test]
fn enum_dup_goes_through_repr() {
    let h = bound_host();
    let t = Type::ArrayInt32;
    assert_eq!(t.dup(&h), Type::ArrayInt32);
}
