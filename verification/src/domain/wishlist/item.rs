//! Items that a wishlist refers to by identifier.

mod address;
mod description;
mod image_url;
mod link_url;
mod price;
mod repository;
mod service;
mod title;

pub use address::url_parsed;
pub use address::ItemUrlInvalidError;
pub use description::ItemDescription;
pub use image_url::ItemImageUrl;
pub use link_url::ItemLinkUrl;
pub use price::canonical;
pub use price::is_canonical;
pub use price::lemma_canonical_is_unique;
pub use price::lemma_canonical_keeps_amount;
pub use price::lemma_pow10_positive;
pub use price::lemma_pow10_sum;
pub use price::lemma_same_amount_same_canonical;
pub use price::pow10;
pub use price::ItemPrice;
pub use price::PriceView;
pub use repository::ItemRepository;
pub use service::CreateItemError;
pub use service::CreateItemRequest;
pub use service::CreateItemRequestView;
pub use service::FindItemByIdError;
pub use service::FindItemByIdRequest;
pub use service::ItemService;
pub use title::ItemTitle;

use vstd::prelude::*;
use vstd::std_specs::cmp::PartialEqSpecImpl;

verus! {

/// What an item is, apart from how it is stored.
pub struct ItemView {
    pub id: u128,
    pub title: Seq<char>,
    pub link_url: Seq<char>,
    pub image_url: Seq<char>,
    pub price: PriceView,
}

/// Something to wish for.
#[derive(Debug, Eq)]
pub struct Item {
    id: u128,
    title: ItemTitle,
    link_url: ItemLinkUrl,
    image_url: ItemImageUrl,
    price: ItemPrice,
}

impl View for Item {
    type V = ItemView;

    closed spec fn view(&self) -> ItemView {
        ItemView {
            id: self.id,
            title: self.title@,
            link_url: self.link_url@,
            image_url: self.image_url@,
            price: self.price@,
        }
    }
}

impl Item {
    pub fn create(
        id: u128,
        title: ItemTitle,
        link_url: ItemLinkUrl,
        image_url: ItemImageUrl,
        price: ItemPrice,
    ) -> (item: Self)
        ensures
            item@ == (ItemView {
                id,
                title: title@,
                link_url: link_url@,
                image_url: image_url@,
                price: price@,
            }),
    {
        Self { id, title, link_url, image_url, price }
    }

    pub fn id(&self) -> (id: u128)
        ensures
            id == self@.id,
    {
        self.id
    }

    pub fn title(&self) -> (title: &ItemTitle)
        ensures
            title@ == self@.title,
    {
        &self.title
    }

    pub fn link_url(&self) -> (link_url: &ItemLinkUrl)
        ensures
            link_url@ == self@.link_url,
    {
        &self.link_url
    }

    pub fn image_url(&self) -> (image_url: &ItemImageUrl)
        ensures
            image_url@ == self@.image_url,
    {
        &self.image_url
    }

    pub fn price(&self) -> (price: &ItemPrice)
        ensures
            price@ == self@.price,
    {
        &self.price
    }
}

impl Clone for Item {
    fn clone(&self) -> (c: Self)
        ensures
            c@ == self@,
    {
        Self {
            id: self.id,
            title: self.title.clone(),
            link_url: self.link_url.clone(),
            image_url: self.image_url.clone(),
            price: self.price,
        }
    }
}

impl PartialEq for Item {
    fn eq(&self, other: &Self) -> (b: bool) {
        self.id == other.id && self.title == other.title && self.link_url == other.link_url
            && self.image_url == other.image_url && self.price == other.price
    }
}

impl PartialEqSpecImpl for Item {
    open spec fn obeys_eq_spec() -> bool {
        true
    }

    open spec fn eq_spec(&self, other: &Self) -> bool {
        self@ == other@
    }
}

} // verus!
