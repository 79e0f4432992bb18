use plugify::host::{Host, Slot, API_VERSION};
use plugify::kinds::{
    SLOT_CONSTRUCT_STRING, SLOT_COUNT, SLOT_DESTROY_VARIANT, SLOT_GET_METHOD_PTR,
    VECTOR_ASSIGN_BASE, VECTOR_CONSTRUCT_BASE,
};

fn demo_table() -> Vec<usize> {
    (0..SLOT_COUNT).map(|i| 0x1000 + i).collect()
}

#[test]
fn slot_starts_unset() {
    let s = Slot::new();
    assert!(!s.is_bound());
}

#[test]
fn slot_set_then_get() {
    let mut s = Slot::new();
    s.set(0xabcd);
    assert!(s.is_bound());
    assert_eq!(s.get(), 0xabcd);
}

#[test]
fn fresh_host_is_unbound() {
    let h = Host::new();
    assert!(!h.is_ready());
    assert_eq!(h.destroy_count(), 0);
}

#[test]
fn version_gate_returns_required_version() {
    // A version below the minimum binds nothing and reports what is
    // required.
    let mut h = Host::new();
    let table = demo_table();
    let r = h.bind(&table, 0);
    assert_eq!(r, API_VERSION);
    assert!(!h.is_ready());
}

#[test]
fn version_gate_leaves_slots_usable_for_a_later_bind() {
    // After a refused bind the host is still in the clean all-unset
    // state, so a bind with an acceptable version succeeds.
    let mut h = Host::new();
    let table = demo_table();
    assert_eq!(h.bind(&table, API_VERSION - 1), API_VERSION);
    assert!(!h.is_ready());
    assert_eq!(h.bind(&table, API_VERSION), 0);
    assert!(h.is_ready());
}

#[test]
fn bind_resolves_every_slot_in_table_order() {
    let mut h = Host::new();
    let table = demo_table();
    let r = h.bind(&table, API_VERSION);
    assert_eq!(r, 0);
    assert!(h.is_ready());
    assert_eq!(h.slot_addr(SLOT_GET_METHOD_PTR), table[SLOT_GET_METHOD_PTR]);
    assert_eq!(h.slot_addr(SLOT_CONSTRUCT_STRING), table[SLOT_CONSTRUCT_STRING]);
    assert_eq!(h.slot_addr(SLOT_DESTROY_VARIANT), table[SLOT_DESTROY_VARIANT]);
    assert_eq!(h.slot_addr(VECTOR_CONSTRUCT_BASE), table[VECTOR_CONSTRUCT_BASE]);
    assert_eq!(h.slot_addr(VECTOR_ASSIGN_BASE + 19), table[VECTOR_ASSIGN_BASE + 19]);
    assert_eq!(VECTOR_ASSIGN_BASE + 20, SLOT_COUNT);
}

#[test]
fn bind_accepts_newer_versions() {
    let mut h = Host::new();
    let table = demo_table();
    assert_eq!(h.bind(&table, API_VERSION + 5), 0);
    assert!(h.is_ready());
}
