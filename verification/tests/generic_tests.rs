//! Mocking a generic trait implementation block is not supported; the
//! declaration stays unannotated and nothing is generated for it.

use mockgen::model::ItemDecl;
use mockgen::registry::TraitRegistry;

#[test]
fn test_one() {
}

#[test]
fn non_trait_item_rejected() {
    let mut registry = TraitRegistry::new();
    let r = mockgen::entry::mock(ItemDecl::Unsupported, &mut registry);
    assert_eq!(r.err(), Some(mockgen::model::GenError::NotTraitOrExtern));
}
