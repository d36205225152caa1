use rust_decimal::prelude::FromPrimitive;
use rust_decimal::Decimal;
use uuid::Uuid;
use wishlist::domain::user::User;
use wishlist::domain::user::UserEmail;
use wishlist::domain::user::UserPassword;
use wishlist::domain::wishlist::item::Item;
use wishlist::domain::wishlist::item::ItemDescription;
use wishlist::domain::wishlist::item::ItemImageUrl;
use wishlist::domain::wishlist::item::ItemLinkUrl;
use wishlist::domain::wishlist::item::ItemPrice;
use wishlist::domain::wishlist::item::ItemTitle;
use wishlist::domain::wishlist::Wishlist;
use wishlist::domain::wishlist::WishlistName;
use wishlist::domain::wishlist::WishlistSlug;

fn price_of(value: f32) -> ItemPrice {
    let decimal = Decimal::from_f32(value).unwrap();
    ItemPrice::new(
        decimal.is_sign_negative(),
        decimal.mantissa().unsigned_abs(),
        decimal.scale(),
    )
}

#[test]
fn new_user() {
    let id = Uuid::now_v7().as_u128();
    let user = User::new(id, UserEmail::from(""), UserPassword::from(""));
    assert_eq!(*user.id(), id);
    assert_eq!(user.anonymous(), true);
    assert_eq!(*user.email(), UserEmail::from(""));
    assert_eq!(*user.password(), UserPassword::from(""));
}

#[test]
fn user_with_email_is_not_anonymous() {
    let user = User::new(1, UserEmail::from("a@b.c"), UserPassword::from("x"));
    assert_eq!(user.anonymous(), false);
    assert_eq!(user.email().to_string(), "a@b.c");
    let copy = user.clone();
    assert_eq!(copy.id(), user.id());
    assert_eq!(copy.email(), user.email());
    assert_eq!(copy.password(), user.password());
    assert_eq!(copy.anonymous(), false);
}

#[test]
fn create_wishlist() {
    let id = Uuid::now_v7().as_u128();
    let owner_id = Uuid::now_v7().as_u128();
    let name = WishlistName::from("Test wishlist");
    let slug = WishlistSlug::from("Test Wishlist");
    let wishlist = Wishlist::new(id, owner_id, name, slug, true);

    assert_eq!(wishlist.id(), id);
    assert_eq!(wishlist.owner_id(), owner_id);
    assert_eq!(*wishlist.name(), "Test wishlist".into());
    assert!(wishlist.slug().to_string().contains("test-wishlist-"));
    assert_eq!(wishlist.private(), true);
    assert!(wishlist.items().is_empty());
}

#[test]
fn wishlist_clone_keeps_every_field() {
    let wishlist = Wishlist::new(
        7,
        9,
        WishlistName::from("Books"),
        WishlistSlug::from_lowered("books", 3),
        false,
    );
    let copy = wishlist.clone();
    assert_eq!(copy.id(), 7);
    assert_eq!(copy.owner_id(), 9);
    assert_eq!(copy.name(), wishlist.name());
    assert_eq!(copy.slug(), wishlist.slug());
    assert_eq!(copy.private(), false);
    assert_eq!(copy.items(), wishlist.items());
}

#[test]
fn create_item() {
    let id = Uuid::now_v7().as_u128();
    let title = ItemTitle::from("Title");
    let link_url = ItemLinkUrl::new("https://www.test_link_url.com").unwrap();
    let image_url = ItemImageUrl::new("https://www.test_image_url.com").unwrap();
    let price = price_of(10.10);
    let item = Item::create(id, title, link_url, image_url, price);

    assert_eq!(item.id(), id);
    assert_eq!(*item.title(), "Title".into());
    assert_eq!(
        *item.link_url(),
        ItemLinkUrl::new("https://www.test_link_url.com").unwrap()
    );
    assert_eq!(
        *item.image_url(),
        ItemImageUrl::new("https://www.test_image_url.com").unwrap()
    );
    assert_eq!(*item.price(), price_of(10.10));
}

#[test]
fn slug_from_str() {
    let slug = WishlistSlug::from("TeSt");
    assert!(slug.to_string().contains("test-"));
}

#[test]
fn slug_has_lowercase_name_hyphens_and_eight_hex_digits() {
    let slug = WishlistSlug::from("My Birthday List").to_string();
    assert_eq!(slug.len(), "my-birthday-list-".len() + 8);
    assert!(slug.starts_with("my-birthday-list-"));
    assert!(!slug.contains(' '));
    let suffix = &slug["my-birthday-list-".len()..];
    assert!(suffix
        .chars()
        .all(|c| c.is_ascii_digit() || ('a'..='f').contains(&c)));
}

#[test]
fn slug_of_lowered_name_is_exact() {
    let slug = WishlistSlug::from_lowered("my list", 0xa1a2a3a4b1b2c1c2d1d2d3d4d5d6d7d8);
    assert_eq!(slug.to_string(), "my-list-a1a2a3a4");
    let other = WishlistSlug::from_lowered("", 0x0123456789abcdef0123456789abcdef);
    assert_eq!(other.to_string(), "-01234567");
}

#[test]
fn slug_of_empty_name_is_hyphen_and_suffix() {
    let slug = WishlistSlug::from("").to_string();
    assert_eq!(slug.len(), 9);
    assert!(slug.starts_with('-'));
}

#[test]
fn slugs_of_one_name_share_the_prefix() {
    let first = WishlistSlug::from("Birthday").to_string();
    let second = WishlistSlug::from("Birthday").to_string();
    assert_eq!(&first[..9], "birthday-");
    assert_eq!(&second[..9], "birthday-");
    assert_eq!(first.len(), 17);
    assert_eq!(second.len(), 17);
}

#[test]
fn slug_lowercases_beyond_ascii() {
    let slug = WishlistSlug::from("ÄRGER Über").to_string();
    assert!(slug.starts_with("ärger-über-"));
}

#[test]
fn email_is_kept_as_given() {
    let email = UserEmail::new("A@b.C").unwrap();
    assert_eq!(email.to_string(), "A@b.C");
    assert_eq!(email, UserEmail::from("A@b.C"));
    assert_ne!(email, UserEmail::from("a@b.c"));
    assert!(!email.is_empty());
    assert!(UserEmail::new("").unwrap().is_empty());
    assert_eq!(email.clone(), email);
}

#[test]
fn password_is_masked() {
    let password = UserPassword::new("hunter2").unwrap();
    assert_eq!(password.to_string(), "****************");
    assert_eq!(UserPassword::from("").to_string(), "****************");
    assert_eq!(
        UserPassword::from("a much longer password than the mask").to_string(),
        "****************"
    );
    assert!(!password.to_string().contains("hunter2"));
    assert!(password.to_string().chars().all(|c| !"hunter2".contains(c)));
}

#[test]
fn passwords_compare_by_text() {
    assert_eq!(UserPassword::from("x"), UserPassword::new("x").unwrap());
    assert_ne!(UserPassword::from("x"), UserPassword::from("y"));
    assert_eq!(UserPassword::from("x").clone(), UserPassword::from("x"));
}

#[test]
fn wishlist_name_rejects_empty() {
    let refused = WishlistName::new("").unwrap_err();
    assert_eq!(refused.invalid_name, WishlistName::from(""));
    assert_eq!(refused.clone().invalid_name.to_string(), "");
}

#[test]
fn wishlist_name_accepts_any_other_text() {
    assert_eq!(WishlistName::new("Birthday").unwrap().to_string(), "Birthday");
    assert_eq!(WishlistName::new(" ").unwrap().as_str(), " ");
    assert_eq!(
        WishlistName::new("Birthday").unwrap(),
        WishlistName::from("Birthday")
    );
}

#[test]
fn item_texts_are_kept_as_given() {
    assert_eq!(ItemTitle::from("Title").to_string(), "Title");
    assert_eq!(ItemDescription::from("Nice").to_string(), "Nice");
    assert_eq!(ItemDescription::from("Nice"), ItemDescription::from("Nice").clone());
    assert_ne!(ItemTitle::from("a"), ItemTitle::from("b"));
}

#[test]
fn link_url_is_the_parsed_serialization() {
    let link = ItemLinkUrl::new("HTTPS://Example.COM").unwrap();
    assert_eq!(link.to_string(), "https://example.com/");
    let image = ItemImageUrl::new("https://example.com/a b.png").unwrap();
    assert_eq!(image.to_string(), "https://example.com/a%20b.png");
}

#[test]
fn malformed_url_is_refused_with_the_text() {
    let refused = ItemLinkUrl::new("not a url").unwrap_err();
    assert_eq!(refused.invalid_url, "not a url");
    let refused = ItemImageUrl::new("").unwrap_err();
    assert_eq!(refused.invalid_url, "");
    assert_eq!(refused.clone().invalid_url, "");
}

#[test]
fn url_from_parser_results() {
    let error = url::Url::parse("nonsense").unwrap_err();
    let refused = ItemLinkUrl::from_parsed("nonsense", Err(error)).unwrap_err();
    assert_eq!(refused.invalid_url, "nonsense");
    let link = ItemLinkUrl::from_parsed("x", Ok(String::from("https://a.b/"))).unwrap();
    assert_eq!(link.to_string(), "https://a.b/");
    let image = ItemImageUrl::from_parsed("x", Ok(String::from("https://a.b/c"))).unwrap();
    assert_eq!(image.to_string(), "https://a.b/c");
    assert!(ItemImageUrl::from_parsed("y", Err(error)).is_err());
}

#[test]
fn price_drops_trailing_zeros() {
    let price = ItemPrice::new(false, 1010, 2);
    assert_eq!(price.mantissa(), 101);
    assert_eq!(price.scale(), 1);
    assert!(!price.is_negative());
    assert_eq!(price, ItemPrice::new(false, 101, 1));
    assert_eq!(ItemPrice::new(true, 5000, 3), ItemPrice::new(true, 5, 0));
    assert_ne!(ItemPrice::new(true, 5, 0), ItemPrice::new(false, 5, 0));
}

#[test]
fn price_keeps_zeros_of_whole_numbers() {
    let price = ItemPrice::new(false, 100, 0);
    assert_eq!(price.mantissa(), 100);
    assert_eq!(price.scale(), 0);
    let price = ItemPrice::new(false, 100, 1);
    assert_eq!(price.mantissa(), 10);
    assert_eq!(price.scale(), 0);
}

#[test]
fn price_zero_is_plain_zero() {
    let zero = ItemPrice::new(true, 0, 5);
    assert_eq!(zero.mantissa(), 0);
    assert_eq!(zero.scale(), 0);
    assert!(!zero.is_negative());
    assert_eq!(zero, ItemPrice::new(false, 0, 0));
}

#[test]
fn price_from_float_is_exact_decimal() {
    let price = price_of(10.10);
    assert_eq!(price.mantissa(), 101);
    assert_eq!(price.scale(), 1);
}
