//! The normalized declaration model: what the generator knows about a
//! method, a trait, or a foreign-function block once the source-language
//! surface has been stripped away. Types and generic clauses are carried
//! as their token text; the generator never inspects them beyond equality.

use vstd::prelude::*;

verus! {

/// A generation-time rejection: the declaration cannot be mocked, and
/// code generation aborts.
#[derive(Clone, Copy, Debug, PartialEq, Eq, Structural)]
pub enum GenError {
    /// A method returns `Self`: the generated implementation would hand
    /// back the mock type, never the consumer's own type.
    SelfReturn,
    /// A trait item other than a method.
    UnsupportedTraitItem,
    /// A static method in a trait with generic parameters.
    StaticWithGenerics,
    /// The annotated item is neither a trait nor an `extern` block.
    NotTraitOrExtern,
    /// A variadic foreign function.
    VariadicFunction,
    /// A foreign function with generic or lifetime parameters.
    ForeignGenerics,
    /// A foreign static data declaration.
    ForeignStatic,
    /// A foreign type declaration.
    ForeignTypeDecl,
    /// A macro invocation inside a foreign block.
    ForeignMacro,
    /// An unparsed item inside a foreign block.
    ForeignUnparsed,
}

/// How a method takes its receiver.
#[derive(Clone, Debug)]
pub enum ReceiverKind {
    /// No receiver: a static (associated) function.
    Static,
    /// `self` or `mut self`: the receiver is consumed.
    ByValue { mutable: bool },
    /// `&self`, with an optional explicit lifetime.
    ByRef { lifetime: Option<String> },
    /// `&mut self`, with an optional explicit lifetime.
    ByMutRef { lifetime: Option<String> },
}

/// Spec-level image of a [`ReceiverKind`], with strings as character
/// sequences.
pub enum ReceiverView {
    Static,
    ByValue { mutable: bool },
    ByRef { lifetime: Option<Seq<char>> },
    ByMutRef { lifetime: Option<Seq<char>> },
}

impl View for ReceiverKind {
    type V = ReceiverView;

    open spec fn view(&self) -> ReceiverView {
        match self {
            ReceiverKind::Static => ReceiverView::Static,
            ReceiverKind::ByValue { mutable } => ReceiverView::ByValue { mutable: *mutable },
            ReceiverKind::ByRef { lifetime } => ReceiverView::ByRef {
                lifetime: match lifetime {
                    Some(lt) => Some(lt@),
                    None => None,
                },
            },
            ReceiverKind::ByMutRef { lifetime } => ReceiverView::ByMutRef {
                lifetime: match lifetime {
                    Some(lt) => Some(lt@),
                    None => None,
                },
            },
        }
    }
}

/// True when a method with this receiver has a receiver at all.
pub open spec fn receiver_is_instance(r: ReceiverView) -> bool {
    !(r is Static)
}

/// True when this receiver is consumed by value.
pub open spec fn receiver_takes_ownership(r: ReceiverView) -> bool {
    r is ByValue
}

/// True when this receiver carries a `mut` token: `&mut self` or
/// `mut self`.
pub open spec fn receiver_is_mutable(r: ReceiverView) -> bool {
    match r {
        ReceiverView::Static => false,
        ReceiverView::ByValue { mutable } => mutable,
        ReceiverView::ByRef { .. } => false,
        ReceiverView::ByMutRef { .. } => true,
    }
}

impl ReceiverKind {
    /// True when the method has a receiver at all.
    pub open spec fn spec_is_instance(&self) -> bool {
        receiver_is_instance(self@)
    }

    /// True when the receiver is consumed by value.
    pub open spec fn spec_takes_ownership(&self) -> bool {
        receiver_takes_ownership(self@)
    }

    /// The receiver's `mut` token: present on `&mut self` and on
    /// `mut self`.
    pub open spec fn spec_is_mutable(&self) -> bool {
        receiver_is_mutable(self@)
    }
}

/// One declared method or foreign function.
#[derive(Clone, Debug)]
pub struct MethodDecl {
    /// The declared name.
    pub name: String,
    /// Receiver kind; foreign functions are always [`ReceiverKind::Static`].
    pub receiver: ReceiverKind,
    /// Token text of each non-receiver parameter type, in declaration
    /// order.
    pub params: Vec<String>,
    /// Token text of the declared return type; `None` when the method
    /// declares no return type (unit).
    pub ret: Option<String>,
    /// Whether the method is declared `unsafe`.
    pub is_unsafe: bool,
}

impl MethodDecl {
    /// A copy of the declaration that provably carries the same content.
    pub fn duplicate(&self) -> (r: Self)
        ensures
            r@ == self@,
    {
        let receiver = match &self.receiver {
            ReceiverKind::Static => ReceiverKind::Static,
            ReceiverKind::ByValue { mutable } => ReceiverKind::ByValue { mutable: *mutable },
            ReceiverKind::ByRef { lifetime } => ReceiverKind::ByRef {
                lifetime: match lifetime {
                    Some(lt) => Some(lt.clone()),
                    None => None,
                },
            },
            ReceiverKind::ByMutRef { lifetime } => ReceiverKind::ByMutRef {
                lifetime: match lifetime {
                    Some(lt) => Some(lt.clone()),
                    None => None,
                },
            },
        };
        let mut params: Vec<String> = Vec::new();
        let n = self.params.len();
        let mut i: usize = 0;
        while i < n
            invariant
                i <= n,
                n == self.params@.len(),
                params@.len() == i,
                forall|j: int| 0 <= j < i ==> #[trigger] params@[j] == self.params@[j],
            decreases n - i,
        {
            params.push(self.params[i].clone());
            i = i + 1;
        }
        let ret = match &self.ret {
            Some(t) => Some(t.clone()),
            None => None,
        };
        let r = MethodDecl {
            name: self.name.clone(),
            receiver,
            params,
            ret,
            is_unsafe: self.is_unsafe,
        };
        proof {
            assert(r@.params =~= self@.params);
        }
        r
    }
}

/// Spec-level image of a [`MethodDecl`].
pub struct MethodView {
    pub name: Seq<char>,
    pub receiver: ReceiverView,
    pub params: Seq<Seq<char>>,
    pub ret: Option<Seq<char>>,
    pub is_unsafe: bool,
}

impl View for MethodDecl {
    type V = MethodView;

    open spec fn view(&self) -> MethodView {
        MethodView {
            name: self.name@,
            receiver: self.receiver@,
            params: self.params@.map_values(|p: String| p@),
            ret: match self.ret {
                Some(ref t) => Some(t@),
                None => None,
            },
            is_unsafe: self.is_unsafe,
        }
    }
}

/// One item of a trait declaration. The generator only understands
/// methods; any other trait item is rejected when the trait is mocked.
#[derive(Clone, Debug)]
pub enum TraitItemDecl {
    Method(MethodDecl),
    /// An associated const, type, macro invocation, or other unsupported
    /// trait item.
    Unsupported,
}

/// Spec-level image of a [`TraitItemDecl`].
pub enum TraitItemView {
    Method(MethodView),
    Unsupported,
}

impl View for TraitItemDecl {
    type V = TraitItemView;

    open spec fn view(&self) -> TraitItemView {
        match self {
            TraitItemDecl::Method(m) => TraitItemView::Method(m@),
            TraitItemDecl::Unsupported => TraitItemView::Unsupported,
        }
    }
}

/// A trait declaration, as the generator models it.
#[derive(Clone, Debug)]
pub struct TraitDecl {
    /// The trait's own name.
    pub name: String,
    /// Whether the trait is declared `pub`.
    pub is_public: bool,
    /// Token text of the generic parameter list, `""` when absent.
    pub generics: String,
    /// Token text of the `where` clause, `""` when absent.
    pub where_clause: String,
    /// Whether the trait itself is declared `unsafe`.
    pub is_unsafe: bool,
    /// The declared items, in order.
    pub items: Vec<TraitItemDecl>,
    /// The last path segment of each supertrait bound, in order.
    pub supertraits: Vec<String>,
}

/// Spec-level image of a [`TraitDecl`].
pub struct TraitView {
    pub name: Seq<char>,
    pub is_public: bool,
    pub generics: Seq<char>,
    pub where_clause: Seq<char>,
    pub is_unsafe: bool,
    pub items: Seq<TraitItemView>,
    pub supertraits: Seq<Seq<char>>,
}

impl View for TraitDecl {
    type V = TraitView;

    open spec fn view(&self) -> TraitView {
        TraitView {
            name: self.name@,
            is_public: self.is_public,
            generics: self.generics@,
            where_clause: self.where_clause@,
            is_unsafe: self.is_unsafe,
            items: self.items@.map_values(|i: TraitItemDecl| i@),
            supertraits: self.supertraits@.map_values(|s: String| s@),
        }
    }
}

/// One item of a foreign-function block.
#[derive(Clone, Debug)]
pub enum ForeignItemDecl {
    /// A declared function. `is_variadic` records a trailing `...`;
    /// `generic_params` counts declared type and lifetime parameters.
    Function { decl: MethodDecl, is_public: bool, is_variadic: bool, generic_params: usize },
    /// A foreign static data declaration.
    StaticData,
    /// A foreign type declaration.
    ForeignType,
    /// A macro invocation inside the block.
    MacroInvocation,
    /// An item the source parser handed through unparsed.
    Unparsed,
}

/// Spec-level image of a [`ForeignItemDecl`].
pub enum ForeignItemView {
    Function { decl: MethodView, is_public: bool, is_variadic: bool, generic_params: nat },
    StaticData,
    ForeignType,
    MacroInvocation,
    Unparsed,
}

impl View for ForeignItemDecl {
    type V = ForeignItemView;

    open spec fn view(&self) -> ForeignItemView {
        match self {
            ForeignItemDecl::Function { decl, is_public, is_variadic, generic_params } =>
                ForeignItemView::Function {
                    decl: decl@,
                    is_public: *is_public,
                    is_variadic: *is_variadic,
                    generic_params: *generic_params as nat,
                },
            ForeignItemDecl::StaticData => ForeignItemView::StaticData,
            ForeignItemDecl::ForeignType => ForeignItemView::ForeignType,
            ForeignItemDecl::MacroInvocation => ForeignItemView::MacroInvocation,
            ForeignItemDecl::Unparsed => ForeignItemView::Unparsed,
        }
    }
}

/// A foreign-function block: `extern "C" { ... }` and kin.
#[derive(Clone, Debug)]
pub struct ForeignBlockDecl {
    /// The ABI name (`"C"`, `"Rust"`, ...), or `None` for a bare
    /// `extern` block.
    pub abi: Option<String>,
    /// The declared items, in order.
    pub items: Vec<ForeignItemDecl>,
}

/// Spec-level image of a [`ForeignBlockDecl`].
pub struct ForeignBlockView {
    pub abi: Option<Seq<char>>,
    pub items: Seq<ForeignItemView>,
}

impl View for ForeignBlockDecl {
    type V = ForeignBlockView;

    open spec fn view(&self) -> ForeignBlockView {
        ForeignBlockView {
            abi: match self.abi {
                Some(ref a) => Some(a@),
                None => None,
            },
            items: self.items@.map_values(|i: ForeignItemDecl| i@),
        }
    }
}

/// The declaration handed to the generator's entry point.
#[derive(Clone, Debug)]
pub enum ItemDecl {
    Trait(TraitDecl),
    ForeignBlock(ForeignBlockDecl),
    /// Any other language item: structs, impls, functions, and so on.
    Unsupported,
}

/// Spec-level image of an [`ItemDecl`].
pub enum ItemView {
    Trait(TraitView),
    ForeignBlock(ForeignBlockView),
    Unsupported,
}

impl View for ItemDecl {
    type V = ItemView;

    open spec fn view(&self) -> ItemView {
        match self {
            ItemDecl::Trait(t) => ItemView::Trait(t@),
            ItemDecl::ForeignBlock(b) => ItemView::ForeignBlock(b@),
            ItemDecl::Unsupported => ItemView::Unsupported,
        }
    }
}

} // verus!
