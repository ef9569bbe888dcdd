use vstd::prelude::*;

use wasmer::sys::NativeEngineExt;

use crate::error::Error;
use crate::memory::PAGE_SIZE;
use crate::registry::Registry;
use crate::resolver::{spec_import_map, ImportEntry, ImportSet};
use crate::trampoline::{callbacks_clone, CallbackTable};
use crate::value::{Kind, TaggedValue};

verus! {

/// An immutable compiled guest module: the engine it was compiled for and
/// the compiled representation, owned by the host through a handle.
pub struct CompiledModule {
    /// The engine configuration the module is bound to.
    pub engine: wasmer::Engine,
    /// The engine's compiled representation.
    pub module: wasmer::Module,
}

/// A live instantiation of a module bound to concrete imports. It owns the
/// engine store its objects live in: every call into the instance, and
/// every look at its memories, goes through this one value, which is how
/// the bridge keeps all guest work on the calling thread.
pub struct InstanceRef {
    /// The store the instance and its imports were created in.
    pub store: wasmer::Store,
    /// The engine's running instance.
    pub instance: wasmer::Instance,
}

/// Why a call of an exported function failed.
enum CallFail {
    /// The instance exports no function of the requested name.
    MissingExport,
    /// The guest trapped; the payload describes the fault.
    Failed(String),
}

/// Why a growth request on an exported guest memory failed.
enum GrowFail {
    /// The instance exports no memory of the requested name.
    NoSuchMemory,
    /// The request went beyond the region's page limit.
    BeyondLimit,
    /// An engine-level failure, described by the payload.
    Other(String),
}

/// Why reading an exported guest memory failed.
enum ReadFail {
    /// The instance exports no memory of the requested name.
    NoSuchMemory,
    /// An engine-level failure, described by the payload.
    Failed(String),
}

// What the contracts below say of the engine is said over these names. Each
// stands for something the engine computes from its arguments alone, under
// the bridge's fixed engine configuration, and each is given its meaning
// only by the trusted functions that make the engine calls.

/// The engine's validation verdict on guest bytes.
pub uninterp spec fn wasm_accepts(bytes: Seq<u8>) -> bool;

/// Whether the engine's compiler accepts the bytes as a module. The engine
/// also accepts its text format, so this is a wider verdict than
/// `wasm_accepts`, which judges the binary format alone.
pub uninterp spec fn compile_accepts(bytes: Seq<u8>) -> bool;

/// The byte artifact a module serializes to, when serialization succeeds.
pub uninterp spec fn serialized_artifact(m: wasmer::Module) -> Option<Seq<u8>>;

/// The namespace/name pairs the module declares as imports.
pub uninterp spec fn module_import_pairs(m: wasmer::Module) -> Set<(Seq<char>, Seq<char>)>;

/// The names of the functions the module exports.
pub uninterp spec fn module_function_exports(m: wasmer::Module) -> Set<Seq<char>>;

/// The names of the memories the module exports.
pub uninterp spec fn module_memory_exports(m: wasmer::Module) -> Set<Seq<char>>;

/// What the engine's import mapping holds: for each defined namespace/name
/// pair, the guest-visible signature of the function standing behind it.
pub uninterp spec fn defined_imports(io: wasmer::Imports) -> Map<
    (Seq<char>, Seq<char>),
    (Seq<Kind>, Seq<Kind>),
>;

/// The guest-visible signature a host-built function carries.
pub uninterp spec fn host_function_kinds(f: wasmer::Function) -> (Seq<Kind>, Seq<Kind>);

/// The names of the functions the instance exports.
pub uninterp spec fn exported_functions_of(i: wasmer::Instance) -> Set<Seq<char>>;

/// The names of the memories the instance exports.
pub uninterp spec fn exported_memories_of(i: wasmer::Instance) -> Set<Seq<char>>;

/// The page count of the instance's exported memory of that name, as the
/// store holds it.
pub uninterp spec fn memory_pages(st: wasmer::Store, i: wasmer::Instance, name: Seq<char>) -> nat;

/// The page limit of the instance's exported memory of that name: its
/// declared maximum, or the ABI's largest page count where it declares none.
pub uninterp spec fn memory_limit_pages(
    st: wasmer::Store,
    i: wasmer::Instance,
    name: Seq<char>,
) -> nat;

/// The byte contents of the instance's exported memory of that name, as the
/// store holds them.
pub uninterp spec fn memory_bytes(st: wasmer::Store, i: wasmer::Instance, name: Seq<char>) -> Seq<
    u8,
>;

/// The tagged value an engine value reads back as: integers as they are,
/// float values as their raw bit patterns; `None` for the reference and
/// vector kinds, which the bridge does not support.
pub uninterp spec fn tagged_of(v: wasmer::Value) -> Option<TaggedValue>;

/// Relies on wasmer_compiler_cranelift::Cranelift and
/// wasmer::sys::NativeEngineExt::set_tunables: the engine this bridge runs
/// guests on, tuned to allocate linear memories dynamically with modest
/// guard regions rather than reserving the engine's default large address
/// ranges up front. This deviates from the engine's default tunables; it
/// bounds address-space use and leaves the growth rules (a region stops at
/// its declared page limit) unchanged.
#[verifier::external_body]
fn engine_new() -> (r: wasmer::Engine)
{
    let mut engine: wasmer::Engine = wasmer_compiler_cranelift::Cranelift::default().into();
    engine.set_tunables(wasmer::sys::BaseTunables {
        static_memory_bound: wasmer_types::Pages(0),
        static_memory_offset_guard_size: 0x1000,
        dynamic_memory_offset_guard_size: 0x1000,
    });
    engine
}

/// Relies on wasmer::Module::new: compiles guest bytecode, succeeding
/// exactly when the engine's compiler accepts the bytes and failing with
/// the compiler's description otherwise.
#[verifier::external_body]
fn compile_raw(bytes: &Vec<u8>) -> (r: Result<CompiledModule, String>)
    ensures
        r is Ok <==> compile_accepts(bytes@),
{
    let engine = engine_new();
    match wasmer::Module::new(&engine, bytes.as_slice()) {
        Ok(module) => Ok(CompiledModule { engine, module }),
        Err(e) => Err(format!("{}", e)),
    }
}

/// Relies on wasmer::Module::validate: the engine's validation verdict on
/// the bytes, a function of the bytes alone under the engine's fixed
/// feature set. Never panics.
#[verifier::external_body]
fn validate_raw(bytes: &Vec<u8>) -> (r: bool)
    ensures
        r == wasm_accepts(bytes@),
{
    wasmer::Module::validate(&engine_new(), bytes.as_slice()).is_ok()
}

/// Relies on wasmer::Module::serialize: the module's byte artifact, which a
/// compatible engine can later deserialize.
#[verifier::external_body]
fn serialize_raw(m: &CompiledModule) -> (r: Result<Vec<u8>, String>)
    ensures
        r is Ok <==> serialized_artifact(m.module) is Some,
        r matches Ok(b) ==> Some(b@) == serialized_artifact(m.module),
{
    m.module.serialize().map(|b| b.to_vec()).map_err(|e| format!("{}", e))
}

/// Relies on wasmer::Store::new: a fresh store on the module's own engine,
/// for one instantiation. Public as the first step of the staged
/// instantiation surface: the host boundary stages a store when it must
/// build guest-callable functions of its own — those with float-kinded
/// results, whose construction is float work — before instantiating.
#[verifier::external_body]
pub fn instance_store(m: &CompiledModule) -> (r: wasmer::Store)
{
    wasmer::Store::new(m.engine.clone())
}

/// Relies on wasmer::Imports::new: an import mapping defining nothing.
#[verifier::external_body]
fn imports_new() -> (r: wasmer::Imports)
    ensures
        forall|pair: (Seq<char>, Seq<char>)| !(#[trigger] defined_imports(r).contains_key(pair)),
{
    wasmer::Imports::new()
}

/// Relies on wasmer::Imports::define, a map insert keyed by the pair: the
/// mapping now defines `(ns, name)` as the given guest-callable function,
/// replacing what it held for the pair, and holds everything else as it
/// was. Public as a step of the staged instantiation surface: the host
/// boundary defines its own host-built functions with it.
#[verifier::external_body]
pub fn define_host_function(io: &mut wasmer::Imports, ns: &String, name: &String, f: wasmer::Function)
    ensures
        defined_imports(*final(io)) == defined_imports(*old(io)).insert(
            (ns@, name@),
            host_function_kinds(f),
        ),
{
    io.define(ns.as_str(), name.as_str(), f);
}

/// Relies on wasmer::Value: reads each argument the guest passed, integers
/// as they are, float values as their raw bit patterns.
#[verifier::external_body]
fn vals_to_values(argv: &[wasmer::Value]) -> (r: Option<Vec<TaggedValue>>)
{
    argv.iter().map(|v| match v {
        wasmer::Value::I32(x) => Some(TaggedValue::I32(*x)),
        wasmer::Value::I64(x) => Some(TaggedValue::I64(*x)),
        wasmer::Value::F32(x) => Some(TaggedValue::F32(x.to_bits())),
        wasmer::Value::F64(x) => Some(TaggedValue::F64(x.to_bits())),
        _ => None,
    }).collect()
}

/// Relies on wasmer::Value: builds the engine's value for each
/// integer-kinded result. Float-kinded values cannot be formed here: their
/// construction is float work, which stays at the host boundary.
#[verifier::external_body]
fn values_to_vals(vs: &Vec<TaggedValue>) -> (r: Option<Vec<wasmer::Value>>)
{
    vs.iter().map(|v| match v {
        TaggedValue::I32(x) => Some(wasmer::Value::I32(*x)),
        TaggedValue::I64(x) => Some(wasmer::Value::I64(*x)),
        _ => None,
    }).collect()
}

/// Relies on wasmer::FunctionType::new: the engine's signature carrying the
/// declared parameter and result kinds, kind for kind.
#[verifier::external_body]
fn signature_of(params: &Vec<Kind>, results: &Vec<Kind>) -> (r: wasmer::FunctionType)
{
    let to_ty = |k: &Kind| match k {
        Kind::I32 => wasmer::Type::I32,
        Kind::I64 => wasmer::Type::I64,
        Kind::F32 => wasmer::Type::F32,
        Kind::F64 => wasmer::Type::F64,
    };
    wasmer::FunctionType::new(
        params.iter().map(to_ty).collect::<Vec<_>>(),
        results.iter().map(to_ty).collect::<Vec<_>>(),
    )
}

/// The message a trap carries, for handing a trampoline failure to the
/// engine as the guest-level fault aborting the in-flight call.
fn trap_message(e: Error) -> (r: String)
    ensures
        e matches Error::Trap(m) ==> r == m,
{
    match e {
        Error::Trap(m) => m,
        _ => String::new(),
    }
}

/// Relies on wasmer::Function::new: a guest-callable function with the
/// declared signature whose body carries each call through the import
/// trampoline to host callback `idx` of the table.
///
/// Float-kinded results of the callback cannot be formed here (see
/// `values_to_vals`); an import whose results are float-kinded needs a
/// guest-callable function the host boundary builds in the staged store and
/// defines through `define_host_function` instead.
#[verifier::external_body]
fn make_host_function(
    st: &mut wasmer::Store,
    params: &Vec<Kind>,
    results: &Vec<Kind>,
    table: &CallbackTable,
    idx: usize,
) -> (r: wasmer::Function)
    ensures
        host_function_kinds(r) == (params@, results@),
{
    let sig = signature_of(params, results);
    let (t, p, rk) = (callbacks_clone(table), params.clone(), results.clone());
    wasmer::Function::new(st, &sig, move |argv| {
        let args = vals_to_values(argv)
            .ok_or_else(|| wasmer::RuntimeError::new("argument of an unsupported kind"))?;
        let out = crate::trampoline::trampoline_invoke(&t, idx, &p, &rk, &args)
            .map_err(|e| wasmer::RuntimeError::new(trap_message(e)))?;
        values_to_vals(&out)
            .ok_or_else(|| wasmer::RuntimeError::new("a float-kinded import result needs a host-built function"))
    })
}

/// Relies on wasmer::Instance::new: instantiates the module in the store
/// against the import mapping. The engine resolves each declared import
/// against the mapping before any instance exists, so a declared pair the
/// mapping does not define fails the call; mismatched signatures and a trap
/// in the guest's start routine fail it too, each with the engine's
/// description. A created instance exports exactly what its module exports,
/// name by name.
#[verifier::external_body]
fn instantiate_raw(st: wasmer::Store, m: &CompiledModule, io: &wasmer::Imports) -> (r: Result<
    InstanceRef,
    String,
>)
    ensures
        !module_import_pairs(m.module).subset_of(defined_imports(*io).dom()) ==> r is Err,
        r matches Ok(i) ==> {
            &&& exported_functions_of(i.instance) == module_function_exports(m.module)
            &&& exported_memories_of(i.instance) == module_memory_exports(m.module)
        },
{
    let mut store = st;
    match wasmer::Instance::new(&mut store, &m.module, io) {
        Ok(instance) => Ok(InstanceRef { store, instance }),
        Err(e) => Err(format!("{}", e)),
    }
}

/// Relies on wasmer::Value: the engine's value carrying an integer-kinded
/// argument — exactly the given value, as reading it back shows; `None` for
/// a float-kinded one, whose construction is float work staying at the host
/// boundary.
#[verifier::external_body]
fn value_to_val(v: &TaggedValue) -> (r: Option<wasmer::Value>)
    ensures
        r is Some <==> (v is I32 || v is I64),
        r matches Some(ev) ==> tagged_of(ev) == Some(*v),
{
    match v {
        TaggedValue::I32(x) => Some(wasmer::Value::I32(*x)),
        TaggedValue::I64(x) => Some(wasmer::Value::I64(*x)),
        _ => None,
    }
}

/// Relies on wasmer::Value: the tagged value a guest result reads back as,
/// float values as their raw bit patterns; `None` for the reference and
/// vector kinds, which the bridge does not support.
#[verifier::external_body]
fn val_to_value(v: &wasmer::Value) -> (r: Option<TaggedValue>)
    ensures
        r == tagged_of(*v),
{
    match v {
        wasmer::Value::I32(x) => Some(TaggedValue::I32(*x)),
        wasmer::Value::I64(x) => Some(TaggedValue::I64(*x)),
        wasmer::Value::F32(x) => Some(TaggedValue::F32(x.to_bits())),
        wasmer::Value::F64(x) => Some(TaggedValue::F64(x.to_bits())),
        _ => None,
    }
}

/// Relies on wasmer::Exports::get_function and wasmer::Function::call:
/// looks the export up by name and calls it synchronously, in the
/// instance's own store, with the given values. The lookup fails exactly
/// when the name is not among the instance's function exports (a
/// wrong-kinded export of the name counts as missing, as it always did at
/// this boundary); a guest-level fault during the call is told apart as a
/// trap with the engine's description.
#[verifier::external_body]
fn call_raw(inst: &mut InstanceRef, name: &String, args: &Vec<wasmer::Value>) -> (r: Result<
    Vec<wasmer::Value>,
    CallFail,
>)
    ensures
        final(inst).instance == old(inst).instance,
        (r matches Err(CallFail::MissingExport)) <==> !exported_functions_of(
            old(inst).instance,
        ).contains(name@),
{
    let f = match inst.instance.exports.get_function(name.as_str()) {
        Err(_) => return Err(CallFail::MissingExport),
        Ok(f) => f.clone(),
    };
    match f.call(&mut inst.store, args.as_slice()) {
        Ok(out) => Ok(out.into_vec()),
        Err(e) => Err(CallFail::Failed(format!("{}", e))),
    }
}

/// Relies on wasmer::Exports::iter over the instance's export map, keyed by
/// name: the names of the functions the instance exports — every listed
/// name is a function export, every function export is listed, and each
/// exactly once — for the host's eagerly populated exports listing.
#[verifier::external_body]
pub fn exported_function_names(inst: &InstanceRef) -> (r: Vec<String>)
    ensures
        forall|i: int|
            0 <= i < r@.len() ==> exported_functions_of(inst.instance).contains(#[trigger] r@[i]@),
        forall|n: Seq<char>| #[trigger]
            exported_functions_of(inst.instance).contains(n) ==> exists|i: int|
                0 <= i < r@.len() && #[trigger] r@[i]@ == n,
        forall|i: int, j: int| 0 <= i < j < r@.len() ==> (#[trigger] r@[i]@) != (#[trigger] r@[j]@),
{
    inst.instance.exports.iter().functions().map(|(name, _)| name.clone()).collect()
}

/// Relies on wasmer::Exports::iter: the names of the memories the instance
/// exports. Each names a region shared with the instance, not copied: the
/// region lives as long as its longest holder — the one deliberate
/// exception to the otherwise exclusive ownership model of the handle
/// registry.
#[verifier::external_body]
pub fn exported_memory_names(inst: &InstanceRef) -> (r: Vec<String>)
    ensures
        forall|i: int|
            0 <= i < r@.len() ==> exported_memories_of(inst.instance).contains(#[trigger] r@[i]@),
        forall|n: Seq<char>| #[trigger]
            exported_memories_of(inst.instance).contains(n) ==> exists|i: int|
                0 <= i < r@.len() && #[trigger] r@[i]@ == n,
        forall|i: int, j: int| 0 <= i < j < r@.len() ==> (#[trigger] r@[i]@) != (#[trigger] r@[j]@),
{
    inst.instance.exports.iter().memories().map(|(name, _)| name.clone()).collect()
}

/// Relies on wasmer::Memory::size: the current page count of the exported
/// memory of that name, exactly when the instance exports one.
#[verifier::external_body]
pub fn memory_size_pages(inst: &InstanceRef, name: &String) -> (r: Option<u32>)
    ensures
        r is Some <==> exported_memories_of(inst.instance).contains(name@),
        r matches Some(p) ==> p == memory_pages(inst.store, inst.instance, name@),
{
    match inst.instance.exports.get_memory(name.as_str()) {
        Err(_) => None,
        Ok(mem) => Some(mem.size(&inst.store).0),
    }
}

/// Relies on wasmer::MemoryView::copy_to_vec: a point-in-time snapshot of
/// the whole current extent of the named exported memory — exactly its
/// bytes, one per byte of its pages — into a fresh host-owned buffer. It
/// succeeds exactly when the instance exports a memory of the name: the
/// copy itself stays within the extent the view captured and cannot fail.
/// The guest may be mutating the region concurrently with the copy: the
/// snapshot is best-effort, not transactional.
#[verifier::external_body]
fn memory_read_raw(inst: &InstanceRef, name: &String) -> (r: Result<Vec<u8>, ReadFail>)
    ensures
        r is Ok <==> exported_memories_of(inst.instance).contains(name@),
        r is Err ==> r matches Err(ReadFail::NoSuchMemory),
        r matches Ok(b) ==> b@ == memory_bytes(inst.store, inst.instance, name@),
        r matches Ok(b) ==> b@.len() == memory_pages(inst.store, inst.instance, name@) * (
        PAGE_SIZE as nat),
{
    let mem = match inst.instance.exports.get_memory(name.as_str()) {
        Err(_) => return Err(ReadFail::NoSuchMemory),
        Ok(m) => m,
    };
    mem.view(&inst.store).copy_to_vec().map_err(|e| ReadFail::Failed(format!("{}", e)))
}

/// Relies on wasmer::Memory::grow: asks the engine for `delta` more whole
/// pages on the named exported memory. The lookup fails exactly when the
/// instance exports no memory of that name. On success the result is the
/// page count before growth and the count afterwards is that plus `delta`,
/// within the region's page limit; the limit's refusal comes exactly of the
/// request going beyond it, is told apart, and changes the count not at all
/// — the engine checks the limit before touching the region. The limit
/// itself never changes.
#[verifier::external_body]
fn memory_grow_raw(inst: &mut InstanceRef, name: &String, delta: u32) -> (r: Result<u32, GrowFail>)
    ensures
        final(inst).instance == old(inst).instance,
        (r matches Err(GrowFail::NoSuchMemory)) <==> !exported_memories_of(
            old(inst).instance,
        ).contains(name@),
        r matches Ok(p) ==> {
            &&& p == memory_pages(old(inst).store, old(inst).instance, name@)
            &&& memory_pages(final(inst).store, final(inst).instance, name@) == p + delta
        },
        r matches Err(GrowFail::BeyondLimit) ==> memory_pages(
            final(inst).store,
            final(inst).instance,
            name@,
        ) == memory_pages(old(inst).store, old(inst).instance, name@),
        r matches Err(GrowFail::BeyondLimit) ==> memory_pages(
            old(inst).store,
            old(inst).instance,
            name@,
        ) + delta > memory_limit_pages(old(inst).store, old(inst).instance, name@),
        r matches Ok(p) ==> p + delta <= memory_limit_pages(
            old(inst).store,
            old(inst).instance,
            name@,
        ),
        memory_limit_pages(final(inst).store, final(inst).instance, name@) == memory_limit_pages(
            old(inst).store,
            old(inst).instance,
            name@,
        ),
{
    let mem = match inst.instance.exports.get_memory(name.as_str()) {
        Err(_) => return Err(GrowFail::NoSuchMemory),
        Ok(m) => m.clone(),
    };
    match mem.grow(&mut inst.store, delta) {
        Ok(previous) => Ok(previous.0),
        Err(wasmer::MemoryError::CouldNotGrow { .. }) => Err(GrowFail::BeyondLimit),
        Err(e) => Err(GrowFail::Other(format!("{}", e))),
    }
}

/// The fixed preamble every well-formed guest module starts with: the
/// four magic bytes and the version word.
pub open spec fn has_wasm_preamble(bytes: Seq<u8>) -> bool {
    &&& bytes.len() >= 8
    &&& bytes[0] == 0u8
    &&& bytes[1] == 0x61u8
    &&& bytes[2] == 0x73u8
    &&& bytes[3] == 0x6du8
    &&& bytes[4] == 1u8
    &&& bytes[5] == 0u8
    &&& bytes[6] == 0u8
    &&& bytes[7] == 0u8
}

/// Whether the bytes start with the guest ABI's module preamble.
pub fn check_wasm_preamble(bytes: &Vec<u8>) -> (r: bool)
    ensures
        r == has_wasm_preamble(bytes@),
{
    if bytes.len() < 8 {
        return false;
    }
    bytes[0] == 0u8 && bytes[1] == 0x61u8 && bytes[2] == 0x73u8 && bytes[3] == 0x6du8
        && bytes[4] == 1u8 && bytes[5] == 0u8 && bytes[6] == 0u8 && bytes[7] == 0u8
}

/// Compiles guest bytecode into a module: succeeds exactly when the
/// engine's compiler accepts the bytes, and fails with a `CompilationError`
/// carrying the engine's description otherwise. The engine also accepts its
/// text format here, so `compile` accepts some input that `validate`, which
/// judges the binary format, rejects.
pub fn compile(bytes: &Vec<u8>) -> (r: Result<CompiledModule, Error>)
    ensures
        r is Ok <==> compile_accepts(bytes@),
        r is Err ==> r->Err_0 is CompilationError,
{
    match compile_raw(bytes) {
        Ok(m) => Ok(m),
        Err(msg) => Err(Error::CompilationError(msg)),
    }
}

/// Whether the bytes are a well-formed guest module. Never fails: malformed
/// input simply yields `false`; in particular any input that is truncated
/// before the module preamble or does not start with the magic number
/// yields `false`.
pub fn validate(bytes: &Vec<u8>) -> (r: bool)
    ensures
        r == (has_wasm_preamble(bytes@) && wasm_accepts(bytes@)),
{
    if !check_wasm_preamble(bytes) {
        false
    } else {
        validate_raw(bytes)
    }
}

/// Serializes a module into its byte artifact, which `deserialize` at the
/// host boundary can later round-trip on a compatible engine version:
/// succeeds exactly when the module has one, and yields exactly it.
pub fn serialize(m: &CompiledModule) -> (r: Result<Vec<u8>, Error>)
    ensures
        r is Ok <==> serialized_artifact(m.module) is Some,
        r matches Ok(b) ==> Some(b@) == serialized_artifact(m.module),
        r is Err ==> r->Err_0 is EnvironmentError,
{
    match serialize_raw(m) {
        Ok(bytes) => Ok(bytes),
        Err(msg) => Err(Error::EnvironmentError(msg)),
    }
}

/// Materializes an import set into the store as the engine's import
/// mapping: builds each entry a guest-callable function with exactly the
/// entry's declared signature, carrying calls through the import trampoline
/// to its callback in the table, and defines it under the entry's pair. The
/// mapping comes out as the set's entries denote it — a later entry for a
/// pair replacing an earlier one, as the set's lookup does.
pub fn build_imports(st: &mut wasmer::Store, imports: &ImportSet, table: &CallbackTable) -> (r:
    wasmer::Imports)
    ensures
        defined_imports(r) == spec_import_map(imports.entries@),
{
    let mut io = imports_new();
    proof {
        assert(imports.entries@.take(0int) =~= Seq::<ImportEntry>::empty());
    }
    let mut i: usize = 0;
    while i < imports.entries.len()
        invariant
            i <= imports.entries@.len(),
            defined_imports(io) == spec_import_map(imports.entries@.take(i as int)),
        decreases imports.entries@.len() - i,
    {
        let entry = &imports.entries[i];
        let f = make_host_function(st, &entry.params, &entry.results, table, entry.callback);
        define_host_function(&mut io, &entry.namespace, &entry.name, f);
        proof {
            assert(imports.entries@.take(i + 1).drop_last() =~= imports.entries@.take(i as int));
            assert(imports.entries@.take(i + 1).last() == imports.entries@[i as int]);
        }
        i = i + 1;
    }
    proof {
        assert(imports.entries@.take(imports.entries@.len() as int) =~= imports.entries@);
    }
    io
}

/// Instantiates a module against an import set, building each entry's
/// trampoline over the callback table. When the set's entries do not fully
/// satisfy the module's declared imports — or the guest's start routine
/// traps — the call fails with an `InstantiationError` describing the
/// mismatch, and no instance exists.
///
/// The preset environment is absent from this build. The POSIX-like shim,
/// the wasmer-wasi crate, was last released at 3.1 and pairs only with the
/// engine's second and third generations, which cannot be used here; its
/// successor, the wasmer-wasix crate, pairs with this generation but brings
/// a dependency set far beyond what this crate takes on. The preset exists
/// here as the import-set model's composition flag: an import set that asks
/// for the preset behind its entries fails with an `InstantiationError`
/// rather than resolving against a shim that is not there, and this is the
/// one place that absence surfaces.
pub fn instantiate(m: &CompiledModule, imports: &ImportSet, table: &CallbackTable) -> (r: Result<
    InstanceRef,
    Error,
>)
    ensures
        r is Err ==> r->Err_0 is InstantiationError,
        imports.preset_base ==> r is Err,
        !imports.preset_base && !module_import_pairs(m.module).subset_of(
            spec_import_map(imports.entries@).dom(),
        ) ==> r is Err,
        r matches Ok(i) ==> {
            &&& exported_functions_of(i.instance) == module_function_exports(m.module)
            &&& exported_memories_of(i.instance) == module_memory_exports(m.module)
        },
{
    if imports.preset_base {
        return Err(
            Error::InstantiationError(
                "the preset environment is not available in this engine build".to_owned(),
            ),
        );
    }
    let mut st = instance_store(m);
    let io = build_imports(&mut st, imports, table);
    instantiate_prepared(st, m, &io)
}

/// Instantiates the module in a staged store against an already-built
/// import mapping: the last step of the staged instantiation surface, for
/// the host boundary after it has defined its own host-built functions. A
/// declared import pair the mapping does not define fails the call, with an
/// `InstantiationError` describing the mismatch, and no instance exists; a
/// created instance exports exactly what its module exports, name by name.
pub fn instantiate_prepared(st: wasmer::Store, m: &CompiledModule, io: &wasmer::Imports) -> (r:
    Result<InstanceRef, Error>)
    ensures
        r is Err ==> r->Err_0 is InstantiationError,
        !module_import_pairs(m.module).subset_of(defined_imports(*io).dom()) ==> r is Err,
        r matches Ok(i) ==> {
            &&& exported_functions_of(i.instance) == module_function_exports(m.module)
            &&& exported_memories_of(i.instance) == module_memory_exports(m.module)
        },
{
    match instantiate_raw(st, m, io) {
        Ok(inst) => Ok(inst),
        Err(msg) => Err(Error::InstantiationError(msg)),
    }
}

/// Instantiates a module and, only on success, issues a fresh handle owning
/// the instance. A failed instantiation fails with an `InstantiationError`
/// and leaves the registry exactly as it was: no instance handle is created
/// that the host would have to clean up.
pub fn instantiate_registered(
    reg: &mut Registry<InstanceRef>,
    m: &CompiledModule,
    imports: &ImportSet,
    table: &CallbackTable,
) -> (r: Result<usize, Error>)
    ensures
        r matches Ok(h) ==> {
            &&& h == old(reg)@.len()
            &&& final(reg)@.len() == old(reg)@.len() + 1
            &&& final(reg).live(h)
            &&& (final(reg)@[h as int] matches Some(i)
                && exported_functions_of(i.instance) == module_function_exports(m.module)
                && exported_memories_of(i.instance) == module_memory_exports(m.module))
        },
        r is Err ==> final(reg)@ == old(reg)@ && r->Err_0 is InstantiationError,
        imports.preset_base ==> r is Err,
        !imports.preset_base && !module_import_pairs(m.module).subset_of(
            spec_import_map(imports.entries@).dom(),
        ) ==> r is Err,
{
    match instantiate(m, imports, table) {
        Ok(inst) => Ok(reg.create(inst)),
        Err(e) => Err(e),
    }
}

/// Whether every value is of one of the integer kinds.
pub open spec fn all_integer_kinds(args: Seq<TaggedValue>) -> bool {
    forall|i: int| 0 <= i < args.len() ==> ((#[trigger] args[i]) is I32 || args[i] is I64)
}

/// Calls an exported function by name with the given values and yields the
/// call's results, each the read-back of an engine value the call produced.
///
/// The call fails with a `LookupError` naming the export exactly when the
/// instance's function exports lack the name; a guest-level fault during
/// the call fails with a `Trap` describing it. Arguments of float kinds
/// cannot be formed into engine values by this verified layer (float work
/// stays at the host boundary): such a call fails with an
/// `EnvironmentError`, and the host boundary makes the call against the
/// instance itself instead.
pub fn call_export(inst: &mut InstanceRef, name: &String, args: &Vec<TaggedValue>) -> (r: Result<
    Vec<TaggedValue>,
    Error,
>)
    ensures
        final(inst).instance == old(inst).instance,
        !all_integer_kinds(args@) ==> (r matches Err(e) && e is EnvironmentError),
        (r matches Err(Error::LookupError(_))) <==> (all_integer_kinds(args@)
            && !exported_functions_of(old(inst).instance).contains(name@)),
        r is Err ==> (r->Err_0 is LookupError || r->Err_0 is Trap || r->Err_0
            is EnvironmentError),
        r matches Err(Error::LookupError(missing)) ==> missing == *name,
{
    let mut vals: Vec<wasmer::Value> = Vec::new();
    let mut i: usize = 0;
    while i < args.len()
        invariant
            i <= args@.len(),
            forall|j: int| 0 <= j < i ==> ((#[trigger] args@[j]) is I32 || args@[j] is I64),
        decreases args@.len() - i,
    {
        match value_to_val(&args[i]) {
            Some(v) => {
                vals.push(v);
            },
            None => {
                proof {
                    assert(!((args@[i as int]) is I32 || args@[i as int] is I64));
                    assert(!all_integer_kinds(args@));
                }
                return Err(
                    Error::EnvironmentError(
                        "a float-kinded argument is formed at the host boundary, not here".to_owned(),
                    ),
                );
            },
        }
        i = i + 1;
    }
    call_export_prebuilt(inst, name, vals)
}

/// Calls an exported function by name with already-built engine values and
/// yields the call's results, each the read-back of an engine value the
/// call produced. The host boundary uses this for calls whose arguments
/// carry float kinds: it builds those engine values itself — float work
/// stays there — and everything from the handover on is owned here: the
/// lookup, the call, the error taxonomy and the result conversion.
///
/// The call fails with a `LookupError` naming the export exactly when the
/// instance's function exports lack the name; a guest-level fault during
/// the call, and a call result of a kind the bridge does not support, fail
/// with a `Trap`.
pub fn call_export_prebuilt(inst: &mut InstanceRef, name: &String, vals: Vec<wasmer::Value>) -> (r:
    Result<Vec<TaggedValue>, Error>)
    ensures
        final(inst).instance == old(inst).instance,
        (r matches Err(Error::LookupError(_))) <==> !exported_functions_of(
            old(inst).instance,
        ).contains(name@),
        r is Err ==> (r->Err_0 is LookupError || r->Err_0 is Trap),
        r matches Err(Error::LookupError(missing)) ==> missing == *name,
{
    match call_raw(inst, name, &vals) {
        Err(CallFail::MissingExport) => Err(Error::LookupError(name.clone())),
        Err(CallFail::Failed(msg)) => Err(Error::Trap(msg)),
        Ok(out_vals) => read_back_values(&out_vals),
    }
}

/// What the bridge makes of the engine values a call produced: the tagged
/// read-back of each, in order, one for one — or a trap when one of them is
/// of a kind the bridge does not support, and only then.
pub fn read_back_values(vals: &Vec<wasmer::Value>) -> (r: Result<Vec<TaggedValue>, Error>)
    ensures
        r is Ok <==> (forall|i: int| 0 <= i < vals@.len() ==> (#[trigger] tagged_of(vals@[i]))
            is Some),
        r matches Ok(out) ==> {
            &&& out@.len() == vals@.len()
            &&& forall|i: int| 0 <= i < vals@.len() ==> Some(out@[i]) == tagged_of(
                #[trigger] vals@[i],
            )
        },
        r is Err ==> r->Err_0 is Trap,
{
    let mut out: Vec<TaggedValue> = Vec::new();
    let mut k: usize = 0;
    while k < vals.len()
        invariant
            k <= vals@.len(),
            out@.len() == k,
            forall|j: int| 0 <= j < k ==> Some(out@[j]) == tagged_of(#[trigger] vals@[j]),
        decreases vals@.len() - k,
    {
        match val_to_value(&vals[k]) {
            Some(v) => {
                out.push(v);
            },
            None => {
                proof {
                    assert(tagged_of(vals@[k as int]) is None);
                }
                return Err(
                    Error::Trap("the call produced a result of an unsupported kind".to_owned()),
                );
            },
        }
        k = k + 1;
    }
    Ok(out)
}

/// Grows the named exported memory by `delta` whole pages. When the region
/// is at page count `p` and the growth succeeds, the call yields `p` and
/// leaves the page count at `p + delta`, within the region's page limit; a
/// request fails with `OutOfMemory` only beyond that limit, and leaves the
/// page count at `p` — no partial growth. A name the instance does not export fails with a
/// `LookupError` naming it, exactly when the instance's memory exports lack
/// the name; any other engine failure is an `EnvironmentError`. Any alias a
/// host buffer holds over the region from before the growth is stale after
/// it: growth may relocate the region's bytes.
pub fn memory_grow(inst: &mut InstanceRef, name: &String, delta: u32) -> (r: Result<u32, Error>)
    ensures
        final(inst).instance == old(inst).instance,
        (r matches Err(Error::LookupError(_))) <==> !exported_memories_of(
            old(inst).instance,
        ).contains(name@),
        r matches Ok(p) ==> {
            &&& p == memory_pages(old(inst).store, old(inst).instance, name@)
            &&& memory_pages(final(inst).store, final(inst).instance, name@) == p + delta
            &&& p + delta <= memory_limit_pages(old(inst).store, old(inst).instance, name@)
        },
        r matches Err(Error::OutOfMemory) ==> {
            &&& memory_pages(final(inst).store, final(inst).instance, name@) == memory_pages(
                old(inst).store,
                old(inst).instance,
                name@,
            )
            &&& memory_pages(old(inst).store, old(inst).instance, name@) + delta
                > memory_limit_pages(old(inst).store, old(inst).instance, name@)
        },
        r is Err ==> (r->Err_0 is LookupError || r->Err_0 is OutOfMemory || r->Err_0
            is EnvironmentError),
        r matches Err(Error::LookupError(missing)) ==> missing == *name,
{
    match memory_grow_raw(inst, name, delta) {
        Ok(previous) => Ok(previous),
        Err(GrowFail::NoSuchMemory) => Err(Error::LookupError(name.clone())),
        Err(GrowFail::BeyondLimit) => Err(Error::OutOfMemory),
        Err(GrowFail::Other(msg)) => Err(Error::EnvironmentError(msg)),
    }
}

/// Snapshots the whole current extent of the named exported memory into a
/// freshly allocated host-owned buffer holding exactly the region's bytes,
/// one per byte of its pages. It succeeds exactly when the instance exports
/// a memory of the name, and fails with a `LookupError` naming it
/// otherwise. The guest may be mutating the region concurrently: the
/// snapshot is best-effort, not transactional.
pub fn memory_read_all(inst: &InstanceRef, name: &String) -> (r: Result<Vec<u8>, Error>)
    ensures
        r is Ok <==> exported_memories_of(inst.instance).contains(name@),
        r is Err ==> (r matches Err(Error::LookupError(missing)) && missing == *name),
        r matches Ok(b) ==> b@ == memory_bytes(inst.store, inst.instance, name@),
        r matches Ok(b) ==> b@.len() == memory_pages(inst.store, inst.instance, name@) * (
        PAGE_SIZE as nat),
{
    match memory_read_raw(inst, name) {
        Ok(bytes) => Ok(bytes),
        Err(ReadFail::NoSuchMemory) => Err(Error::LookupError(name.clone())),
        Err(ReadFail::Failed(msg)) => Err(Error::EnvironmentError(msg)),
    }
}

} // verus!
