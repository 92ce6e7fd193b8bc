//! The argument classifier and signature translator: from a method's
//! receiver and parameter list to the re-declarable parameter list (with
//! synthesized positional names), the call-through list used to forward a
//! call to a fallback object, and the receiver's classification; and from
//! a declared return type to the token fragments the generated method
//! signature and body need.

use crate::model::{
    receiver_is_instance, receiver_is_mutable, receiver_takes_ownership, MethodDecl, ReceiverView,
};
use crate::names::{concat_ident, concat_ident3, decimal_string, spec_decimal};
use vstd::prelude::*;

verus! {

/// The synthesized name of the argument at position `i` of the full
/// parameter list (the receiver, when present, occupies position 0).
pub open spec fn arg_name_seq(i: nat) -> Seq<char> {
    "_a"@ + spec_decimal(i)
}

/// The rendered receiver fragment of a re-declared signature, `None`
/// for a static method.
pub open spec fn spec_receiver_tokens(r: ReceiverView) -> Option<Seq<char>> {
    match r {
        ReceiverView::Static => None,
        ReceiverView::ByValue { mutable } => Some(
            if mutable {
                "mut self"@
            } else {
                "self"@
            },
        ),
        ReceiverView::ByRef { lifetime } => match lifetime {
            Some(lt) => Some("&"@ + lt + " self"@),
            None => Some("&self"@),
        },
        ReceiverView::ByMutRef { lifetime } => match lifetime {
            Some(lt) => Some("&"@ + lt + " mut self"@),
            None => Some("&mut self"@),
        },
    }
}

/// The view of an optional string.
pub open spec fn opt_str_view(o: Option<String>) -> Option<Seq<char>> {
    match o {
        Some(s) => Some(s@),
        None => None,
    }
}

/// One re-declared parameter: a synthesized name and the declared type's
/// token text.
#[derive(Clone, Debug)]
pub struct TypedArg {
    pub name: String,
    pub ty: String,
}

impl View for TypedArg {
    type V = (Seq<char>, Seq<char>);

    open spec fn view(&self) -> (Seq<char>, Seq<char>) {
        (self.name@, self.ty@)
    }
}

/// Spec-level image of [`FnArgs`].
#[verifier::ext_equal]
pub struct FnArgsView {
    pub receiver_tokens: Option<Seq<char>>,
    pub typed_args: Seq<(Seq<char>, Seq<char>)>,
    pub call_through: Seq<Seq<char>>,
    pub mutable_status: bool,
    pub is_instance_method: bool,
    pub takes_self_ownership: bool,
}

/// What the classifier owes for method `m`: the parameter list under
/// synthesized positional names, the call-through name list, and the
/// receiver's classification.
pub open spec fn spec_fn_args(m: crate::model::MethodView) -> FnArgsView {
    let offset: nat = if receiver_is_instance(m.receiver) {
        1
    } else {
        0
    };
    FnArgsView {
        receiver_tokens: spec_receiver_tokens(m.receiver),
        typed_args: Seq::new(
            m.params.len(),
            |i: int| (arg_name_seq((i + offset) as nat), m.params[i]),
        ),
        call_through: Seq::new(m.params.len(), |i: int| arg_name_seq((i + offset) as nat)),
        mutable_status: receiver_is_mutable(m.receiver),
        is_instance_method: receiver_is_instance(m.receiver),
        takes_self_ownership: receiver_takes_ownership(m.receiver),
    }
}

/// What the classifier knows about a method's arguments.
#[derive(Clone, Debug)]
pub struct FnArgs {
    /// The rendered receiver fragment, `None` for a static method.
    pub receiver_tokens: Option<String>,
    /// The re-declarable parameter list, with synthesized names.
    pub typed_args: Vec<TypedArg>,
    /// Just the synthesized names, in order: the argument list used to
    /// forward the call to a fallback object.
    pub call_through: Vec<String>,
    /// Whether the receiver carries a `mut` token; this decides whether
    /// the fallback object is borrowed mutably.
    pub mutable_status: bool,
    /// Whether the method has a receiver at all.
    pub is_instance_method: bool,
    /// Whether the receiver is consumed by value, which rules fallback
    /// delegation out.
    pub takes_self_ownership: bool,
}

impl FnArgs {
    /// A classification with nothing recognized yet: no receiver, no
    /// parameters, a static function until a receiver shows up.
    pub fn new() -> (r: FnArgs)
        ensures
            r.receiver_tokens is None,
            r.typed_args@.len() == 0,
            r.call_through@.len() == 0,
            !r.mutable_status,
            !r.is_instance_method,
            !r.takes_self_ownership,
    {
        FnArgs {
            receiver_tokens: None,
            typed_args: Vec::new(),
            call_through: Vec::new(),
            mutable_status: false,
            is_instance_method: false,
            takes_self_ownership: false,
        }
    }
}

impl View for FnArgs {
    type V = FnArgsView;

    open spec fn view(&self) -> FnArgsView {
        FnArgsView {
            receiver_tokens: opt_str_view(self.receiver_tokens),
            typed_args: self.typed_args@.map_values(|a: TypedArg| a@),
            call_through: self.call_through@.map_values(|s: String| s@),
            mutable_status: self.mutable_status,
            is_instance_method: self.is_instance_method,
            takes_self_ownership: self.takes_self_ownership,
        }
    }
}

/// Classifies a method's receiver and parameters. Parameter names are
/// synthesized from the position in the full parameter list, so the
/// first non-receiver parameter of an instance method is `_a1`, of a
/// static method `_a0`.
pub fn parse_args(m: &MethodDecl) -> (r: FnArgs)
    ensures
        r@ == spec_fn_args(m@),
{
    let receiver_tokens = render_receiver(m);
    let is_instance = match m.receiver {
        crate::model::ReceiverKind::Static => false,
        _ => true,
    };
    let takes_ownership = match m.receiver {
        crate::model::ReceiverKind::ByValue { .. } => true,
        _ => false,
    };
    let mutable_status = match m.receiver {
        crate::model::ReceiverKind::ByValue { mutable } => mutable,
        crate::model::ReceiverKind::ByMutRef { .. } => true,
        _ => false,
    };
    let offset: usize = if is_instance {
        1
    } else {
        0
    };
    let mut args = FnArgs::new();
    args.receiver_tokens = receiver_tokens;
    args.mutable_status = mutable_status;
    args.is_instance_method = is_instance;
    args.takes_self_ownership = takes_ownership;
    let n = m.params.len();
    let mut i: usize = 0;
    while i < n
        invariant
            i <= n,
            n == m.params@.len(),
            offset == if m.receiver.spec_is_instance() {
                1int
            } else {
                0int
            },
            args.typed_args@.len() == i,
            args.call_through@.len() == i,
            forall|j: int|
                0 <= j < i ==> (#[trigger] args.typed_args@[j]).name@ == arg_name_seq(
                    (j + offset) as nat,
                ),
            forall|j: int| 0 <= j < i ==> (#[trigger] args.typed_args@[j]).ty@ == m@.params[j],
            forall|j: int|
                0 <= j < i ==> (#[trigger] args.call_through@[j])@ == arg_name_seq(
                    (j + offset) as nat,
                ),
            opt_str_view(args.receiver_tokens) == spec_receiver_tokens(m.receiver@),
            args.mutable_status == m.receiver.spec_is_mutable(),
            args.is_instance_method == m.receiver.spec_is_instance(),
            args.takes_self_ownership == m.receiver.spec_takes_ownership(),
        decreases n - i,
    {
        let idx = decimal_string(i + offset);
        let name = concat_ident("_a", idx.as_str());
        let ty = m.params[i].clone();
        args.call_through.push(name.clone());
        args.typed_args.push(TypedArg { name, ty });
        i = i + 1;
    }
    proof {
        assert(args@.typed_args =~= spec_fn_args(m@).typed_args);
        assert(args@.call_through =~= spec_fn_args(m@).call_through);
        assert(args@ =~~= spec_fn_args(m@));
    }
    args
}

fn render_receiver(m: &MethodDecl) -> (r: Option<String>)
    ensures
        opt_str_view(r) == spec_receiver_tokens(m.receiver@),
{
    match &m.receiver {
        crate::model::ReceiverKind::Static => None,
        crate::model::ReceiverKind::ByValue { mutable } => {
            if *mutable {
                Some("mut self".to_owned())
            } else {
                Some("self".to_owned())
            }
        },
        crate::model::ReceiverKind::ByRef { lifetime } => match lifetime {
            Some(lt) => Some(concat_ident3("&", lt.as_str(), " self")),
            None => Some("&self".to_owned()),
        },
        crate::model::ReceiverKind::ByMutRef { lifetime } => match lifetime {
            Some(lt) => Some(concat_ident3("&", lt.as_str(), " mut self")),
            None => Some("&mut self".to_owned()),
        },
    }
}

/// How a method's declared return type reads once translated: the flag
/// is true exactly when the declaration carries no return type, and the
/// type text is then the unit type's.
pub fn parse_return_type(ret: &Option<String>) -> (r: (bool, String))
    ensures
        match ret {
            None => r.0 && r.1@ == "()"@,
            Some(t) => !r.0 && r.1@ == t@,
        },
{
    match ret {
        None => (true, "()".to_owned()),
        Some(t) => (false, t.clone()),
    }
}

/// The return-dependent fragments of a generated method: the signature's
/// return arrow, the binding the scripted value is taken under, and the
/// pattern that matches a produced value.
#[derive(Clone, Debug)]
pub struct ReturnTokens {
    pub arrow: String,
    pub binding: String,
    pub pattern: String,
}

/// Translates return-type presence into the three fragments: a method
/// without a return type gets an empty arrow and binding and a wildcard
/// pattern; one with a return type gets `-> <type>` and a `retval`
/// binding and pattern.
pub fn make_return_tokens(no_return: bool, return_type: &str) -> (r: ReturnTokens)
    ensures
        no_return ==> r.arrow@ == Seq::<char>::empty() && r.binding@ == Seq::<char>::empty()
            && r.pattern@ == "_"@,
        !no_return ==> r.arrow@ == "-> "@ + return_type@ && r.binding@ == "retval"@ && r.pattern@
            == "retval"@,
{
    if no_return {
        ReturnTokens {
            arrow: String::new(),
            binding: String::new(),
            pattern: "_".to_owned(),
        }
    } else {
        ReturnTokens {
            arrow: concat_ident("-> ", return_type),
            binding: "retval".to_owned(),
            pattern: "retval".to_owned(),
        }
    }
}

} // verus!
