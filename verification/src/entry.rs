//! The entry dispatcher: classifies the annotated declaration as a trait
//! or a foreign block, routes it to the matching synthesizer, and
//! rejects anything else outright. Whether the synthesized mock is
//! emitted beside the original declaration is the consumer's build
//! configuration: a test build carries both, a normal build only the
//! original, so the mock machinery costs nothing outside tests.

use crate::foreign::{
    parse_foreign_functions, spec_extern_plan_ok, spec_first_foreign_error, ExternMockPlan,
};
use crate::model::{ForeignBlockDecl, GenError, ItemDecl, TraitDecl};
use crate::registry::TraitRegistry;
use crate::synth::{parse_trait, spec_parse_error, spec_trait_plan_ok, TraitMockPlan};
use vstd::prelude::*;

verus! {

/// A declaration the generator can mock.
#[derive(Clone, Debug)]
pub enum Mockable {
    ForeignFunctions(ForeignBlockDecl),
    Trait(TraitDecl),
}

/// Classifies the annotated item: a trait declaration or an `extern`
/// block passes through, anything else is a hard rejection.
pub fn parse_block(item: ItemDecl) -> (r: Result<Mockable, GenError>)
    ensures
        match item {
            ItemDecl::Trait(t) => r == Ok::<Mockable, GenError>(Mockable::Trait(t)),
            ItemDecl::ForeignBlock(b) => r == Ok::<Mockable, GenError>(
                Mockable::ForeignFunctions(b),
            ),
            ItemDecl::Unsupported => r == Err::<Mockable, GenError>(GenError::NotTraitOrExtern),
        },
{
    match item {
        ItemDecl::Trait(trait_item) => Ok(Mockable::Trait(trait_item)),
        ItemDecl::ForeignBlock(fmod) => Ok(Mockable::ForeignFunctions(fmod)),
        ItemDecl::Unsupported => Err(GenError::NotTraitOrExtern),
    }
}

/// The mock machinery synthesized for one declaration.
#[derive(Clone, Debug)]
pub enum GeneratedMock {
    Trait(TraitMockPlan),
    Extern(ExternMockPlan),
}

/// The consumer's build configuration, which decides what the expansion
/// carries.
#[derive(Clone, Copy, Debug, PartialEq, Eq, Structural)]
pub enum BuildMode {
    /// A test build: the expansion carries the original declaration and
    /// the synthesized mock machinery.
    Test,
    /// A normal build: the expansion carries only the original
    /// declaration, so mocking has no footprint outside tests.
    Normal,
}

/// Whether an expansion under `mode` carries the synthesized mock
/// beside the original declaration.
pub fn emits_generated(mode: BuildMode) -> (r: bool)
    ensures
        r == (mode is Test),
{
    match mode {
        BuildMode::Test => true,
        BuildMode::Normal => false,
    }
}

/// The generator's entry point: routes a trait declaration to the trait
/// synthesizer — which also registers it for later dependents — and a
/// foreign block to the foreign-block synthesizer; any other item is
/// rejected and the registry left unchanged.
pub fn mock(item: ItemDecl, registry: &mut TraitRegistry) -> (r: Result<GeneratedMock, GenError>)
    ensures
        match item {
            ItemDecl::Trait(t) => match r {
                Ok(GeneratedMock::Trait(plan)) => {
                    &&& spec_parse_error(t@, old(registry).entries()) is None
                    &&& spec_trait_plan_ok(plan, t@, old(registry).entries())
                    &&& final(registry).entries() == old(registry).entries().push((t.name, t))
                },
                Ok(GeneratedMock::Extern(_)) => false,
                Err(e) => {
                    &&& spec_parse_error(t@, old(registry).entries()) == Some(e)
                    &&& final(registry).entries() == old(registry).entries()
                },
            },
            ItemDecl::ForeignBlock(b) => {
                &&& final(registry).entries() == old(registry).entries()
                &&& match r {
                    Ok(GeneratedMock::Extern(plan)) => {
                        &&& spec_first_foreign_error(b@.items, b@.items.len() as int) is None
                        &&& spec_extern_plan_ok(plan, b@)
                    },
                    Ok(GeneratedMock::Trait(_)) => false,
                    Err(e) => spec_first_foreign_error(b@.items, b@.items.len() as int) == Some(
                        e,
                    ),
                }
            },
            ItemDecl::Unsupported => {
                &&& r == Err::<GeneratedMock, GenError>(GenError::NotTraitOrExtern)
                &&& final(registry).entries() == old(registry).entries()
            },
        },
{
    let block = match parse_block(item) {
        Ok(b) => b,
        Err(e) => {
            return Err(e);
        },
    };
    match block {
        Mockable::ForeignFunctions(impl_block) => match parse_foreign_functions(&impl_block) {
            Ok(plan) => Ok(GeneratedMock::Extern(plan)),
            Err(e) => Err(e),
        },
        Mockable::Trait(trait_block) => match parse_trait(trait_block, registry) {
            Ok(plan) => Ok(GeneratedMock::Trait(plan)),
            Err(e) => Err(e),
        },
    }
}

} // verus!
