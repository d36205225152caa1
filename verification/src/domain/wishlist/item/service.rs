use super::Item;
use super::ItemImageUrl;
use super::ItemLinkUrl;
use super::ItemPrice;
use super::ItemTitle;
use super::PriceView;
use vstd::prelude::*;

verus! {

/// The contract of item creation.
pub trait ItemService {
    /// Creates an item with the values of the request. `Duplicate` says
    /// that an item with the same link exists already.
    fn create_item(&mut self, req: &CreateItemRequest) -> (r: Result<Item, CreateItemError>)
        ensures
            r matches Ok(item) ==> req.describes(item),
    ;
}

/// What is needed to create an item.
#[derive(Debug)]
pub struct CreateItemRequest {
    title: ItemTitle,
    link_url: ItemLinkUrl,
    image_url: ItemImageUrl,
    price: ItemPrice,
}

/// The values of a creation request.
pub struct CreateItemRequestView {
    pub title: Seq<char>,
    pub link_url: Seq<char>,
    pub image_url: Seq<char>,
    pub price: PriceView,
}

impl View for CreateItemRequest {
    type V = CreateItemRequestView;

    closed spec fn view(&self) -> CreateItemRequestView {
        CreateItemRequestView {
            title: self.title@,
            link_url: self.link_url@,
            image_url: self.image_url@,
            price: self.price@,
        }
    }
}

impl CreateItemRequest {
    pub fn new(
        title: ItemTitle,
        link_url: ItemLinkUrl,
        image_url: ItemImageUrl,
        price: ItemPrice,
    ) -> (req: Self)
        ensures
            req@ == (CreateItemRequestView {
                title: title@,
                link_url: link_url@,
                image_url: image_url@,
                price: price@,
            }),
    {
        Self { title, link_url, image_url, price }
    }

    pub fn title(&self) -> (title: &ItemTitle)
        ensures
            title@ == self@.title,
    {
        &self.title
    }

    pub fn link_url(&self) -> (link_url: &ItemLinkUrl)
        ensures
            link_url@ == self@.link_url,
    {
        &self.link_url
    }

    pub fn image_url(&self) -> (image_url: &ItemImageUrl)
        ensures
            image_url@ == self@.image_url,
    {
        &self.image_url
    }

    pub fn price(&self) -> (price: &ItemPrice)
        ensures
            price@ == self@.price,
    {
        &self.price
    }

    /// Whether `item` has the values of the request.
    pub open spec fn describes(&self, item: Item) -> bool {
        &&& item@.title == self@.title
        &&& item@.link_url == self@.link_url
        &&& item@.image_url == self@.image_url
        &&& item@.price == self@.price
    }
}

impl Clone for CreateItemRequest {
    fn clone(&self) -> (c: Self)
        ensures
            c@ == self@,
    {
        Self {
            title: self.title.clone(),
            link_url: self.link_url.clone(),
            image_url: self.image_url.clone(),
            price: self.price,
        }
    }
}

/// Why an item was not created.
#[derive(Debug)]
pub enum CreateItemError {
    /// An item with the same link exists already.
    Duplicate,
    /// Any other failure, with its cause.
    Unkown(anyhow::Error),
}

/// What is needed to look an item up by identifier.
#[derive(Debug, Clone, Copy)]
pub struct FindItemByIdRequest {
    id: u128,
}

impl View for FindItemByIdRequest {
    type V = u128;

    closed spec fn view(&self) -> u128 {
        self.id
    }
}

impl FindItemByIdRequest {
    pub fn new(id: u128) -> (req: Self)
        ensures
            req@ == id,
    {
        Self { id }
    }

    pub fn id(&self) -> (id: &u128)
        ensures
            *id == self@,
    {
        &self.id
    }
}

/// Why a look-up by identifier gave no answer.
#[derive(Debug)]
pub enum FindItemByIdError {
    Unkown(anyhow::Error),
}

} // verus!
