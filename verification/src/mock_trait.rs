//! A trait declaration paired with what the synthesizer reads off it
//! first: whether a `Sized` bound disables object fallback, and the
//! method list with each method's receiver classification.

use crate::mock_method::{spec_ownership, MockMethod};
use crate::model::{MethodView, TraitDecl, TraitItemDecl, TraitItemView};
use crate::synth::spec_impls_sized;
use vstd::prelude::*;

verus! {

/// The methods among the first `n` trait items, in order.
pub open spec fn spec_method_views(items: Seq<TraitItemView>, n: int) -> Seq<MethodView>
    decreases n,
{
    if n <= 0 {
        Seq::empty()
    } else {
        let prev = spec_method_views(items, n - 1);
        match items[n - 1] {
            TraitItemView::Method(m) => prev.push(m),
            TraitItemView::Unsupported => prev,
        }
    }
}

/// One mocked trait declaration, classified.
#[derive(Clone, Debug)]
pub struct MockTrait {
    item_trait: TraitDecl,
    is_sized: bool,
    methods: Vec<MockMethod>,
}

impl MockTrait {
    /// The declaration itself.
    pub closed spec fn spec_item_trait(&self) -> TraitDecl {
        self.item_trait
    }

    /// Whether the bound list carries a `Sized` marker.
    pub closed spec fn spec_is_sized(&self) -> bool {
        self.is_sized
    }

    /// The classified methods.
    pub closed spec fn spec_methods(&self) -> Seq<MockMethod> {
        self.methods@
    }

    /// Whether the bound list carries a `Sized` marker.
    pub fn sized(&self) -> (r: bool)
        ensures
            r == self.spec_is_sized(),
    {
        self.is_sized
    }

    /// How many methods the trait declares.
    pub fn method_count(&self) -> (r: usize)
        ensures
            r == self.spec_methods().len(),
    {
        self.methods.len()
    }

    fn is_sized(bound: &String) -> (r: Option<bool>)
        ensures
            r == if bound@ == "Sized"@ {
                Some(true)
            } else {
                None::<bool>
            },
    {
        let sized_str: String = "Sized".to_owned();
        if *bound == sized_str {
            Some(true)
        } else {
            None
        }
    }

    fn det_impls_size(trait_block: &TraitDecl) -> (r: bool)
        ensures
            r == spec_impls_sized(trait_block@),
    {
        let n = trait_block.supertraits.len();
        let mut found = false;
        let mut i: usize = 0;
        while i < n
            invariant
                i <= n,
                n == trait_block@.supertraits.len(),
                trait_block@.supertraits == trait_block.supertraits@.map_values(|s: String| s@),
                found <==> exists|j: int|
                    0 <= j < i && trait_block@.supertraits[j] == "Sized"@,
            decreases n - i,
        {
            proof {
                assert(trait_block@.supertraits[i as int] == trait_block.supertraits@[i as int]@);
            }
            match MockTrait::is_sized(&trait_block.supertraits[i]) {
                Some(_) => {
                    found = true;
                    proof {
                        assert(trait_block@.supertraits[i as int] == "Sized"@);
                    }
                },
                None => {},
            }
            i = i + 1;
        }
        found
    }

    fn generate_methods(trait_block: &TraitDecl) -> (r: Vec<MockMethod>)
        ensures
            r@.len() == spec_method_views(
                trait_block@.items,
                trait_block@.items.len() as int,
            ).len(),
            forall|j: int|
                0 <= j < r@.len() ==> (#[trigger] r@[j]).spec_method()@ == spec_method_views(
                    trait_block@.items,
                    trait_block@.items.len() as int,
                )[j],
            forall|j: int|
                0 <= j < r@.len() ==> (#[trigger] r@[j]).spec_ownership_of() == spec_ownership(
                    spec_method_views(trait_block@.items, trait_block@.items.len() as int)[j].receiver,
                ),
    {
        let n = trait_block.items.len();
        let mut methods: Vec<MockMethod> = Vec::new();
        let mut i: usize = 0;
        while i < n
            invariant
                i <= n,
                n == trait_block@.items.len(),
                trait_block@.items == trait_block.items@.map_values(|it: TraitItemDecl| it@),
                methods@.len() == spec_method_views(trait_block@.items, i as int).len(),
                forall|j: int|
                    0 <= j < methods@.len() ==> (#[trigger] methods@[j]).spec_method()@
                        == spec_method_views(trait_block@.items, i as int)[j],
                forall|j: int|
                    0 <= j < methods@.len() ==> (#[trigger] methods@[j]).spec_ownership_of()
                        == spec_ownership(spec_method_views(trait_block@.items, i as int)[j].receiver),
            decreases n - i,
        {
            proof {
                assert(trait_block@.items[i as int] == trait_block.items@[i as int]@);
            }
            match &trait_block.items[i] {
                TraitItemDecl::Method(m) => {
                    let copy = m.duplicate();
                    methods.push(MockMethod::with_method(copy));
                },
                TraitItemDecl::Unsupported => {},
            }
            proof {
                assert(forall|j: int|
                    0 <= j < spec_method_views(trait_block@.items, i as int).len()
                        ==> #[trigger] spec_method_views(trait_block@.items, i + 1)[j]
                        == spec_method_views(trait_block@.items, i as int)[j]);
            }
            i = i + 1;
        }
        methods
    }

    /// Classifies one trait declaration: its `Sized` status and its
    /// method list.
    pub fn with_trait(input: TraitDecl) -> (r: MockTrait)
        ensures
            r.spec_item_trait() == input,
            r.spec_is_sized() == spec_impls_sized(input@),
            r.spec_methods().len() == spec_method_views(
                input@.items,
                input@.items.len() as int,
            ).len(),
            forall|j: int|
                0 <= j < r.spec_methods().len() ==> (#[trigger] r.spec_methods()[j]).spec_method()@
                    == spec_method_views(input@.items, input@.items.len() as int)[j],
    {
        let is_sized = MockTrait::det_impls_size(&input);
        let methods = MockTrait::generate_methods(&input);
        MockTrait { item_trait: input, is_sized, methods }
    }
}

} // verus!
