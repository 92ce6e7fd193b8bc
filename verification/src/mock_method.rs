//! A declared method paired with its receiver-ownership classification,
//! the unit the trait synthesizer walks over.

use crate::model::{MethodDecl, ReceiverView};
use vstd::prelude::*;

verus! {

/// How a method relates to the mock instance: it borrows the receiver,
/// consumes it, or has none and is routed through global storage.
#[derive(Clone, Copy, Debug, PartialEq, Eq, Structural)]
pub enum InstanceMethodOwnership {
    /// `self` or `mut self`: the receiver is consumed.
    SelfOwnership,
    /// `&self` or `&mut self`.
    SelfReference,
    /// No receiver: a static method.
    StaticMethod,
}

/// The ownership class a receiver falls in.
pub open spec fn spec_ownership(r: ReceiverView) -> InstanceMethodOwnership {
    match r {
        ReceiverView::Static => InstanceMethodOwnership::StaticMethod,
        ReceiverView::ByValue { .. } => InstanceMethodOwnership::SelfOwnership,
        ReceiverView::ByRef { .. } => InstanceMethodOwnership::SelfReference,
        ReceiverView::ByMutRef { .. } => InstanceMethodOwnership::SelfReference,
    }
}

/// One method of a mocked trait, with its classification.
#[derive(Clone, Debug)]
pub struct MockMethod {
    method: MethodDecl,
    ownership: InstanceMethodOwnership,
}

impl MockMethod {
    /// The declared method.
    pub closed spec fn spec_method(&self) -> MethodDecl {
        self.method
    }

    /// The receiver's classification.
    pub closed spec fn spec_ownership_of(&self) -> InstanceMethodOwnership {
        self.ownership
    }

    fn det_ownership(method_item: &MethodDecl) -> (r: InstanceMethodOwnership)
        ensures
            r == spec_ownership(method_item.receiver@),
    {
        match &method_item.receiver {
            crate::model::ReceiverKind::Static => InstanceMethodOwnership::StaticMethod,
            crate::model::ReceiverKind::ByValue { .. } => InstanceMethodOwnership::SelfOwnership,
            crate::model::ReceiverKind::ByRef { .. } => InstanceMethodOwnership::SelfReference,
            crate::model::ReceiverKind::ByMutRef { .. } => InstanceMethodOwnership::SelfReference,
        }
    }

    /// The receiver's classification.
    pub fn ownership(&self) -> (r: InstanceMethodOwnership)
        ensures
            r == self.spec_ownership_of(),
    {
        self.ownership
    }

    /// Classifies `method_item` and pairs it with its ownership class.
    pub fn with_method(method_item: MethodDecl) -> (r: MockMethod)
        ensures
            r.spec_method() == method_item,
            r.spec_ownership_of() == spec_ownership(method_item.receiver@),
    {
        let method_ownership = MockMethod::det_ownership(&method_item);
        MockMethod { method: method_item, ownership: method_ownership }
    }
}

} // verus!
