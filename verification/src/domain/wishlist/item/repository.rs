use super::CreateItemError;
use super::CreateItemRequest;
use super::FindItemByIdError;
use super::FindItemByIdRequest;
use super::Item;
use vstd::prelude::*;

verus! {

/// The contract of a store of items.
pub trait ItemRepository {
    /// Stores a new item with the values of the request. `Duplicate` says
    /// that an item with the same link is stored already.
    fn save(&mut self, req: &CreateItemRequest) -> (r: Result<Item, CreateItemError>)
        ensures
            r matches Ok(item) ==> req.describes(item),
    ;

    /// Looks for the stored item with the identifier.
    fn find_item_by_id(&self, req: &FindItemByIdRequest) -> (r: Result<
        Option<Item>,
        FindItemByIdError,
    >)
        ensures
            r matches Ok(Some(item)) ==> item@.id == req@,
    ;
}

} // verus!
