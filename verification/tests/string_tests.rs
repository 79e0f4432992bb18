use plugify::host::{Host, API_VERSION};
use plugify::kinds::{SLOT_COUNT, SLOT_DESTROY_STRING};
use plugify::string::Str;
use plugify::vector::ArrOps;

fn bound_host() -> Host {
    let mut h = Host::new();
    let table: Vec<usize> = (0..SLOT_COUNT).map(|i| 0x1000 + i).collect();
    assert_eq!(h.bind(&table, API_VERSION), 0);
    h
}

#[test]
fn scenario_hello_then_hi() {
    let h = bound_host();
    let mut s = Str::from_str(&h, "hello");
    assert_eq!(s.len(), 5);
    assert_eq!(s.as_str(), "hello");
    s.set(&h, "hi");
    assert_eq!(s.len(), 2);
    assert_eq!(s.as_str(), "hi");
}

#[test]
fn new_string_is_empty() {
    let h = bound_host();
    let s = Str::new(&h);
    assert!(s.is_empty());
    assert_eq!(s.len(), 0);
    assert_eq!(s.as_str(), "");
}

#[test]
fn len_counts_bytes_not_chars() {
    let h = bound_host();
    let s = Str::from_str(&h, "héllo");
    assert_eq!(s.len(), 6);
}

#[test]
fn as_bytes_matches_contents() {
    let h = bound_host();
    let s = Str::from_str(&h, "abc");
    assert_eq!(s.as_bytes(), b"abc");
}

#[test]
fn to_string_copies_contents() {
    let h = bound_host();
    let s = Str::from_str(&h, "copy me");
    let owned = s.to_string();
    assert_eq!(owned, "copy me");
}

#[test]
fn dup_is_an_independent_copy() {
    let h = bound_host();
    let mut s = Str::from_str(&h, "first");
    let d = s.dup(&h);
    s.set(&h, "second");
    assert_eq!(d.as_str(), "first");
    assert_eq!(s.as_str(), "second");
}

#[test]
fn equality_delegates_to_contents() {
    let h = bound_host();
    let a = Str::from_str(&h, "same");
    let b = Str::from_str(&h, "same");
    let c = Str::from_str(&h, "other");
    assert!(a == b);
    assert!(a != c);
}

#[test]
fn string_destroy_releases_exactly_once() {
    // Construct, destroy, then let the value go out of scope: the
    // foreign destroy entry point runs exactly once.
    let mut h = bound_host();
    {
        let mut s = Str::from_str(&h, "x");
        s.destroy(&mut h);
        assert_eq!(h.destroy_count(), 1);
        assert_eq!(h.destroyed_at(0), SLOT_DESTROY_STRING);
    }
    assert_eq!(h.destroy_count(), 1);
}
