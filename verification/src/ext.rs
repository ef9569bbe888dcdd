use vstd::prelude::*;

verus! {

// The engine's types this library holds and passes through. Each is opaque
// to the verifier: what the contracts say about the operations on them lives
// with the functions that make the calls.

#[verifier::external_type_specification]
#[verifier::external_body]
pub struct ExWasmerEngine(wasmer::Engine);

#[verifier::external_type_specification]
#[verifier::external_body]
pub struct ExWasmerStore(wasmer::Store);

#[verifier::external_type_specification]
#[verifier::external_body]
pub struct ExWasmerModule(wasmer::Module);

#[verifier::external_type_specification]
#[verifier::external_body]
pub struct ExWasmerInstance(wasmer::Instance);

#[verifier::external_type_specification]
#[verifier::external_body]
pub struct ExWasmerImports(wasmer::Imports);

#[verifier::external_type_specification]
#[verifier::external_body]
pub struct ExWasmerFunction(wasmer::Function);

#[verifier::external_type_specification]
#[verifier::external_body]
pub struct ExWasmerFunctionType(wasmer::FunctionType);

#[verifier::external_type_specification]
#[verifier::external_body]
pub struct ExWasmerValue(wasmer::Value);

} // verus!
