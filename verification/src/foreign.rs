//! The foreign-block synthesizer: from an `extern` block to the
//! description of its mock registry — a globally-named storage struct
//! with one optional tracker per declared function, the lazily-
//! initialized shared singleton, the per-function getter/setter/clear
//! trio, and a replacement function per declaration. Variadic functions,
//! generic or lifetime-parameterized functions, foreign statics, foreign
//! types and unparsed items are rejected outright.

use crate::classify::{parse_args, parse_return_type, spec_fn_args, FnArgs, FnArgsView};
use crate::model::{ForeignBlockDecl, ForeignItemDecl, ForeignItemView, GenError, MethodView};
use crate::names::{concat_ident, concat_ident3};
use crate::synth::spec_return_type;
use vstd::prelude::*;

verus! {

/// The plan for one mocked foreign function. The replacement function
/// keeps the block's ABI, the declared name and signature, and is always
/// emitted `unsafe`, whatever the declaration said.
#[derive(Clone, Debug)]
pub struct ExternFnPlan {
    /// The declared function name; the replacement keeps it.
    pub fn_name: String,
    /// `Method_<name>`: the tracker type generated for it.
    pub tracker_type_name: String,
    /// `method_<name>`: returns a fresh tracker; also the registry
    /// struct's field name.
    pub getter_name: String,
    /// `set_<name>`: installs a tracker into the singleton.
    pub setter_name: String,
    /// `clear_<name>`: empties the singleton's slot.
    pub clear_name: String,
    /// The return type the tracker is instantiated at.
    pub return_type: String,
    /// Whether the declaration had no return type.
    pub no_return: bool,
    /// Whether the declaration was `pub`; the replacement keeps it.
    pub is_public: bool,
    /// The classified arguments.
    pub args: FnArgs,
}

/// Spec-level image of an [`ExternFnPlan`].
#[verifier::ext_equal]
pub struct ExternFnPlanView {
    pub fn_name: Seq<char>,
    pub tracker_type_name: Seq<char>,
    pub getter_name: Seq<char>,
    pub setter_name: Seq<char>,
    pub clear_name: Seq<char>,
    pub return_type: Seq<char>,
    pub no_return: bool,
    pub is_public: bool,
    pub args: FnArgsView,
}

impl View for ExternFnPlan {
    type V = ExternFnPlanView;

    open spec fn view(&self) -> ExternFnPlanView {
        ExternFnPlanView {
            fn_name: self.fn_name@,
            tracker_type_name: self.tracker_type_name@,
            getter_name: self.getter_name@,
            setter_name: self.setter_name@,
            clear_name: self.clear_name@,
            return_type: self.return_type@,
            no_return: self.no_return,
            is_public: self.is_public,
            args: self.args@,
        }
    }
}

/// The plan a declared foreign function gets.
pub open spec fn spec_extern_fn_plan(m: MethodView, is_public: bool) -> ExternFnPlanView {
    ExternFnPlanView {
        fn_name: m.name,
        tracker_type_name: "Method_"@ + m.name,
        getter_name: "method_"@ + m.name,
        setter_name: "set_"@ + m.name,
        clear_name: "clear_"@ + m.name,
        return_type: spec_return_type(m.ret),
        no_return: m.ret is None,
        is_public,
        args: spec_fn_args(m),
    }
}

/// The description of one foreign block's mock machinery.
#[derive(Clone, Debug)]
pub struct ExternMockPlan {
    /// The ABI family the registry is named by: the block's ABI name, or
    /// `Rust` for a bare `extern` block.
    pub abi_label: String,
    /// `Extern<abi>Mocks`: the registry struct, one optional tracker per
    /// declared function.
    pub registry_type_name: String,
    /// `Static<registry>`: the accessor that lazily initializes and
    /// hands out the shared singleton.
    pub singleton_fn_name: String,
    /// `__SingletonReader_<accessor>`: the shared, lock-guarded handle.
    pub reader_name: String,
    /// `__SINGLETON_<accessor>`: the one-time-initialized cell.
    pub cell_name: String,
    /// One plan per declared function, in declaration order.
    pub functions: Vec<ExternFnPlan>,
}

/// The ABI label of a block: its ABI name, or `Rust` when it has none.
pub open spec fn spec_abi_label(abi: Option<Seq<char>>) -> Seq<char> {
    match abi {
        Some(a) => a,
        None => "Rust"@,
    }
}

/// The first rejection among the first `n` foreign items.
pub open spec fn spec_first_foreign_error(items: Seq<ForeignItemView>, n: int) -> Option<GenError>
    decreases n,
{
    if n <= 0 {
        None
    } else {
        match spec_first_foreign_error(items, n - 1) {
            Some(e) => Some(e),
            None => match items[n - 1] {
                ForeignItemView::Function { decl, is_public, is_variadic, generic_params } => if is_variadic {
                    Some(GenError::VariadicFunction)
                } else if generic_params > 0 {
                    Some(GenError::ForeignGenerics)
                } else {
                    None
                },
                ForeignItemView::StaticData => Some(GenError::ForeignStatic),
                ForeignItemView::ForeignType => Some(GenError::ForeignTypeDecl),
                ForeignItemView::MacroInvocation => Some(GenError::ForeignMacro),
                ForeignItemView::Unparsed => Some(GenError::ForeignUnparsed),
            },
        }
    }
}

/// The function plans of the first `n` foreign items.
pub open spec fn spec_extern_plans(items: Seq<ForeignItemView>, n: int) -> Seq<ExternFnPlanView>
    decreases n,
{
    if n <= 0 {
        Seq::empty()
    } else {
        let prev = spec_extern_plans(items, n - 1);
        match items[n - 1] {
            ForeignItemView::Function { decl, is_public, is_variadic, generic_params } => prev.push(
                spec_extern_fn_plan(decl, is_public),
            ),
            ForeignItemView::StaticData => prev,
            ForeignItemView::ForeignType => prev,
            ForeignItemView::MacroInvocation => prev,
            ForeignItemView::Unparsed => prev,
        }
    }
}

/// Everything `parse_foreign_functions` owes of a returned plan for
/// block `bv`.
pub open spec fn spec_extern_plan_ok(
    plan: ExternMockPlan,
    bv: crate::model::ForeignBlockView,
) -> bool {
    let label = spec_abi_label(bv.abi);
    let registry_name = "Extern"@ + label + "Mocks"@;
    let singleton_name = "Static"@ + registry_name;
    &&& plan.abi_label@ == label
    &&& plan.registry_type_name@ == registry_name
    &&& plan.singleton_fn_name@ == singleton_name
    &&& plan.reader_name@ == "__SingletonReader_"@ + singleton_name
    &&& plan.cell_name@ == "__SINGLETON_"@ + singleton_name
    &&& plan.functions@.map_values(|p: ExternFnPlan| p@) == spec_extern_plans(
        bv.items,
        bv.items.len() as int,
    )
}

proof fn lemma_foreign_error_monotone(items: Seq<ForeignItemView>, i: int, n: int)
    requires
        0 <= i <= n <= items.len(),
        spec_first_foreign_error(items, i) is Some,
    ensures
        spec_first_foreign_error(items, n) == spec_first_foreign_error(items, i),
    decreases n - i,
{
    if n > i {
        lemma_foreign_error_monotone(items, i, n - 1);
    }
}

/// Synthesizes the mock registry of one foreign block: derives the
/// ABI-family names and one plan per declared function, rejecting the
/// unsupported declaration shapes at the first offender.
pub fn parse_foreign_functions(block: &ForeignBlockDecl) -> (r: Result<ExternMockPlan, GenError>)
    ensures
        match r {
            Ok(plan) => {
                &&& spec_first_foreign_error(block@.items, block@.items.len() as int) is None
                &&& spec_extern_plan_ok(plan, block@)
            },
            Err(e) => spec_first_foreign_error(block@.items, block@.items.len() as int) == Some(
                e,
            ),
        },
{
    let abi_label: String = match &block.abi {
        Some(a) => a.clone(),
        None => "Rust".to_owned(),
    };
    let registry_type_name = concat_ident3("Extern", abi_label.as_str(), "Mocks");
    let singleton_fn_name = concat_ident("Static", registry_type_name.as_str());
    let reader_name = concat_ident("__SingletonReader_", singleton_fn_name.as_str());
    let cell_name = concat_ident("__SINGLETON_", singleton_fn_name.as_str());

    let mut functions: Vec<ExternFnPlan> = Vec::new();
    let n = block.items.len();
    let mut i: usize = 0;
    while i < n
        invariant
            i <= n,
            n == block@.items.len(),
            block@.items == block.items@.map_values(|it: ForeignItemDecl| it@),
            spec_first_foreign_error(block@.items, i as int) is None,
            functions@.map_values(|p: ExternFnPlan| p@) == spec_extern_plans(
                block@.items,
                i as int,
            ),
        decreases n - i,
    {
        let ghost prev_plans = functions@.map_values(|p: ExternFnPlan| p@);
        proof {
            assert(block@.items[i as int] == block.items@[i as int]@);
        }
        match &block.items[i] {
            ForeignItemDecl::Function { decl, is_public, is_variadic, generic_params } => {
                if *is_variadic {
                    proof {
                        lemma_foreign_error_monotone(block@.items, i + 1, block@.items.len() as int);
                    }
                    return Err(GenError::VariadicFunction);
                }
                if *generic_params > 0 {
                    proof {
                        lemma_foreign_error_monotone(block@.items, i + 1, block@.items.len() as int);
                    }
                    return Err(GenError::ForeignGenerics);
                }
                let fn_args = parse_args(decl);
                let (no_return, return_type) = parse_return_type(&decl.ret);
                let plan = ExternFnPlan {
                    fn_name: decl.name.clone(),
                    tracker_type_name: concat_ident("Method_", decl.name.as_str()),
                    getter_name: concat_ident("method_", decl.name.as_str()),
                    setter_name: concat_ident("set_", decl.name.as_str()),
                    clear_name: concat_ident("clear_", decl.name.as_str()),
                    return_type,
                    no_return,
                    is_public: *is_public,
                    args: fn_args,
                };
                proof {
                    assert(plan@ =~~= spec_extern_plans(block@.items, i + 1).last());
                }
                functions.push(plan);
                proof {
                    assert(functions@.map_values(|p: ExternFnPlan| p@) =~= spec_extern_plans(
                        block@.items,
                        i + 1,
                    ));
                }
            },
            ForeignItemDecl::StaticData => {
                proof {
                    lemma_foreign_error_monotone(block@.items, i + 1, block@.items.len() as int);
                }
                return Err(GenError::ForeignStatic);
            },
            ForeignItemDecl::ForeignType => {
                proof {
                    lemma_foreign_error_monotone(block@.items, i + 1, block@.items.len() as int);
                }
                return Err(GenError::ForeignTypeDecl);
            },
            ForeignItemDecl::MacroInvocation => {
                proof {
                    lemma_foreign_error_monotone(block@.items, i + 1, block@.items.len() as int);
                }
                return Err(GenError::ForeignMacro);
            },
            ForeignItemDecl::Unparsed => {
                proof {
                    lemma_foreign_error_monotone(block@.items, i + 1, block@.items.len() as int);
                }
                return Err(GenError::ForeignUnparsed);
            },
        }
        i = i + 1;
    }
    Ok(
        ExternMockPlan {
            abi_label,
            registry_type_name,
            singleton_fn_name,
            reader_name,
            cell_name,
            functions,
        },
    )
}

} // verus!
