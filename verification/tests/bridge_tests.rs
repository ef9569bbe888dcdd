use wasmer_bridge::error::{Error, JOption};
use wasmer_bridge::memory::{PageRegion, MAX_PAGES, PAGE_SIZE};
use wasmer_bridge::registry::{Pointer, Registry};
use wasmer_bridge::resolver::{ImportEntry, ImportSet};
use wasmer_bridge::trampoline::{
    callbacks_new, callbacks_push, decode_results, encode_arguments, finish_host_call,
    trampoline_invoke,
};
use wasmer_bridge::value::{Kind, TaggedValue};

fn entry(ns: &str, name: &str, callback: usize) -> ImportEntry {
    ImportEntry {
        namespace: ns.to_string(),
        name: name.to_string(),
        params: vec![Kind::I32],
        results: vec![Kind::I32],
        callback,
    }
}

#[test]
fn joption_unwrap_or_yields_the_value_or_the_default() {
    assert_eq!(JOption::Present(7).unwrap_or(0), 7);
    assert_eq!(JOption::Absent.unwrap_or(0), 0);
}

#[test]
fn pointer_owns_and_yields_its_object() {
    let p = Pointer::new(String::from("payload"));
    assert_eq!(p.borrow(), "payload");
    assert_eq!(p.into_inner(), "payload");
}

#[test]
fn registry_creates_borrows_and_destroys() {
    let mut reg: Registry<u64> = Registry::new();
    let a = reg.create(10);
    let b = reg.create(20);
    assert_ne!(a, b);
    assert_eq!(reg.borrow(a), Some(&10));
    assert_eq!(reg.borrow(b), Some(&20));
    assert_eq!(reg.destroy(a), Some(10));
    assert_eq!(reg.borrow(a), None);
    assert_eq!(reg.borrow(b), Some(&20));
}

#[test]
fn registry_reports_a_second_destroy_instead_of_faulting() {
    let mut reg: Registry<u8> = Registry::new();
    let h = reg.create(1);
    assert_eq!(reg.destroy(h), Some(1));
    assert_eq!(reg.destroy(h), None);
    assert_eq!(reg.issued(), 1);
}

#[test]
fn registry_borrow_mut_edits_in_place() {
    let mut reg: Registry<u64> = Registry::new();
    let h = reg.create(5);
    if let Some(v) = reg.borrow_mut(h) {
        *v = 9;
    }
    assert_eq!(reg.borrow(h), Some(&9));
    assert!(reg.borrow_mut(999).is_none());
}

#[test]
fn registry_never_reissues_a_handle() {
    let mut reg: Registry<u8> = Registry::new();
    let a = reg.create(1);
    reg.destroy(a);
    let b = reg.create(2);
    assert_ne!(a, b);
    assert_eq!(reg.borrow(a), None);
    assert_eq!(reg.borrow(b), Some(&2));
}

#[test]
fn encode_arguments_packs_slots_in_order() {
    let params = vec![Kind::I32, Kind::I64, Kind::F64];
    let bits = (-1.25f64).to_bits();
    let args = vec![TaggedValue::I32(-3), TaggedValue::I64(9), TaggedValue::F64(bits)];
    let slots = encode_arguments(&params, &args).unwrap();
    assert_eq!(slots, vec![-3i64, 9i64, bits as i64]);
}

#[test]
fn encode_arguments_fails_fast_on_a_kind_mismatch() {
    let params = vec![Kind::I32];
    let args = vec![TaggedValue::I64(1)];
    assert!(matches!(encode_arguments(&params, &args), Err(Error::Trap(_))));
}

#[test]
fn encode_arguments_fails_fast_on_an_arity_mismatch() {
    let params = vec![Kind::I32, Kind::I32];
    let args = vec![TaggedValue::I32(1)];
    assert!(matches!(encode_arguments(&params, &args), Err(Error::Trap(_))));
}

#[test]
fn decode_results_reinterprets_each_slot_at_its_kind() {
    let kinds = vec![Kind::I32, Kind::F32];
    let fbits = 3.5f32.to_bits();
    let out = decode_results(&kinds, &vec![-7i64, fbits as i64]).unwrap();
    assert_eq!(out, vec![TaggedValue::I32(-7), TaggedValue::F32(fbits)]);
}

#[test]
fn decode_results_rejects_a_result_array_shorter_than_declared() {
    let kinds = vec![Kind::I32];
    assert!(matches!(decode_results(&kinds, &vec![]), Err(Error::Trap(_))));
}

#[test]
fn decode_results_ignores_slots_beyond_the_declared_count() {
    let kinds = vec![Kind::I32];
    let out = decode_results(&kinds, &vec![5, 99, 100]).unwrap();
    assert_eq!(out, vec![TaggedValue::I32(5)]);
}

#[test]
fn finish_host_call_carries_the_host_failure_message() {
    let out = finish_host_call(&vec![Kind::I32], Err("host refused".to_string()));
    match out {
        Err(Error::Trap(m)) => assert_eq!(m, "host refused"),
        other => panic!("expected a trap, got ok={}", other.is_ok()),
    }
}

#[test]
fn finish_host_call_traps_on_too_few_slots() {
    let out = finish_host_call(&vec![Kind::I32, Kind::I32], Ok(vec![1]));
    assert!(matches!(out, Err(Error::Trap(_))));
}

#[test]
fn trampoline_carries_a_call_to_the_callback_and_back() {
    let mut table = callbacks_new();
    let idx = callbacks_push(&mut table, |args: &[i64]| Ok(vec![args[0] * 2]));
    let params = vec![Kind::I32];
    let results = vec![Kind::I32];
    let out = trampoline_invoke(&table, idx, &params, &results, &vec![TaggedValue::I32(21)]);
    assert_eq!(out.unwrap(), vec![TaggedValue::I32(42)]);
}

#[test]
fn trampoline_surfaces_a_host_failure_as_a_trap() {
    let mut table = callbacks_new();
    let idx = callbacks_push(&mut table, |_args: &[i64]| Err("host side gave up".to_string()));
    let out = trampoline_invoke(&table, idx, &vec![], &vec![], &vec![]);
    match out {
        Err(Error::Trap(msg)) => assert_eq!(msg, "host side gave up"),
        other => panic!("expected a trap, got ok={}", other.is_ok()),
    }
}

#[test]
fn trampoline_rejects_an_unregistered_callback() {
    let table = callbacks_new();
    let out = trampoline_invoke(&table, 0, &vec![], &vec![], &vec![]);
    assert!(matches!(out, Err(Error::Trap(_))));
}

#[test]
fn trampoline_rejects_a_wrongly_kinded_argument() {
    let mut table = callbacks_new();
    let idx = callbacks_push(&mut table, |args: &[i64]| Ok(args.to_vec()));
    let out = trampoline_invoke(
        &table,
        idx,
        &vec![Kind::F32],
        &vec![],
        &vec![TaggedValue::I32(1)],
    );
    assert!(matches!(out, Err(Error::Trap(_))));
}

#[test]
fn trampoline_ignores_result_slots_beyond_the_declared_count() {
    let mut table = callbacks_new();
    let idx = callbacks_push(&mut table, |_args: &[i64]| Ok(vec![1, 2, 3]));
    let out = trampoline_invoke(&table, idx, &vec![], &vec![Kind::I32], &vec![]);
    assert_eq!(out.unwrap(), vec![TaggedValue::I32(1)]);
}

#[test]
fn trampoline_rejects_too_few_result_slots() {
    let mut table = callbacks_new();
    let idx = callbacks_push(&mut table, |_args: &[i64]| Ok(vec![]));
    let out = trampoline_invoke(&table, idx, &vec![], &vec![Kind::I32], &vec![]);
    assert!(matches!(out, Err(Error::Trap(_))));
}

#[test]
fn trampoline_reads_nothing_of_a_no_result_import_outcome() {
    let mut table = callbacks_new();
    let idx = callbacks_push(&mut table, |_args: &[i64]| Ok(vec![7, 8, 9]));
    let out = trampoline_invoke(&table, idx, &vec![], &vec![], &vec![]);
    assert_eq!(out.unwrap(), Vec::<TaggedValue>::new());
}

#[test]
fn lookup_finds_the_latest_registration_of_a_pair() {
    let mut imports = ImportSet::new();
    imports.register(entry("env", "f", 0));
    imports.register(entry("env", "f", 1));
    let found = imports.lookup(&"env".to_string(), &"f".to_string()).unwrap();
    assert_eq!(found.callback, 1);
}

#[test]
fn lookup_misses_an_unregistered_pair() {
    let mut imports = ImportSet::new();
    imports.register(entry("env", "f", 0));
    assert!(imports.lookup(&"env".to_string(), &"g".to_string()).is_none());
    assert!(imports.lookup(&"sys".to_string(), &"f".to_string()).is_none());
}

#[test]
fn chain_prefers_the_front_when_both_define_a_pair() {
    let mut front = ImportSet::new();
    front.register(entry("env", "f", 10));
    let mut back = ImportSet::new();
    back.register(entry("env", "f", 20));
    let chained = ImportSet::chain(front, back);
    let found = chained.lookup(&"env".to_string(), &"f".to_string()).unwrap();
    assert_eq!(found.callback, 10);
}

#[test]
fn chain_falls_back_to_the_back_on_a_front_miss() {
    let mut front = ImportSet::new();
    front.register(entry("env", "f", 10));
    let mut back = ImportSet::new();
    back.register(entry("env", "g", 20));
    let chained = ImportSet::chain(front, back);
    let found = chained.lookup(&"env".to_string(), &"g".to_string()).unwrap();
    assert_eq!(found.callback, 20);
}

#[test]
fn chain_keeps_the_preset_of_either_side() {
    let plain = ImportSet::new();
    let preset = ImportSet::preset();
    let chained = ImportSet::chain(plain, preset);
    assert!(chained.preset_base);
}

#[test]
fn page_region_growth_within_the_limit_returns_the_old_count() {
    let mut region = PageRegion::new(2, 4).unwrap();
    assert_eq!(region.pages(), 2);
    assert_eq!(region.grow(1).unwrap(), 2);
    assert_eq!(region.pages(), 3);
    assert_eq!(region.byte_len(), 3 * PAGE_SIZE as usize);
}

#[test]
fn page_region_growth_beyond_the_limit_changes_nothing() {
    let mut region = PageRegion::new(3, 4).unwrap();
    assert!(matches!(region.grow(2), Err(Error::OutOfMemory)));
    assert_eq!(region.pages(), 3);
    assert_eq!(region.byte_len(), 3 * PAGE_SIZE as usize);
}

#[test]
fn page_region_growth_by_zero_pages_is_allowed() {
    let mut region = PageRegion::new(1, 1).unwrap();
    assert_eq!(region.grow(0).unwrap(), 1);
    assert_eq!(region.pages(), 1);
}

#[test]
fn page_region_rejects_an_impossible_setup() {
    assert!(matches!(PageRegion::new(5, 4), Err(Error::OutOfMemory)));
    assert!(matches!(PageRegion::new(0, MAX_PAGES + 1), Err(Error::OutOfMemory)));
}

#[test]
fn page_region_snapshot_has_exactly_the_region_length() {
    let mut region = PageRegion::new(1, 2).unwrap();
    let snapshot = region.read_all();
    assert_eq!(snapshot.len(), PAGE_SIZE as usize);
    assert!(snapshot.iter().all(|b| *b == 0));
    region.grow(1).unwrap();
    assert_eq!(region.read_all().len(), 2 * PAGE_SIZE as usize);
}

#[test]
fn binding_needs_the_whole_extent_to_fit() {
    let region = PageRegion::new(1, 2).unwrap();
    assert!(region.bind_allowed(PAGE_SIZE as usize));
    assert!(region.bind_allowed(PAGE_SIZE as usize + 1));
    assert!(!region.bind_allowed(PAGE_SIZE as usize - 1));
}
