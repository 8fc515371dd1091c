//! The buttons of the menu screen and what each one stands for.
use vstd::prelude::*;
use crate::palette::{ButtonColors, Shade, HOVERED_GREY, NORMAL_GREY};

verus! {

/// Store identifier of the consumable test product.
pub const CONSUMABLE_PRODUCT: &'static str = "com.thierryberger.bevyiap.testconsumable";

/// Store identifier of the non-consumable test product.
pub const NON_CONSUMABLE_PRODUCT: &'static str = "com.thierryberger.bevyiap.testnonconsumable";

/// Page of the game engine.
pub const ENGINE_URL: &'static str = "https://bevyengine.org";

/// Page of the project's source code.
pub const SOURCE_URL: &'static str = "https://github.com/NiklasEi/bevy_game_template";

/// What pressing a button does.
#[derive(Clone, Debug, PartialEq, Eq)]
pub enum ButtonRole {
    /// Ask the store for the metadata of the configured products.
    InitializeIap,
    /// Buy the product with this identifier.
    PurchaseIap(String),
    /// Open this address in the system browser.
    OpenLink(String),
}

/// Picture shown beside a link button's label.
#[derive(Clone, Copy, Debug, PartialEq, Eq, Structural)]
pub enum Icon {
    EngineLogo,
    SourceLogo,
}

/// One interactive button: its label, its single role and its single colour pair.
#[derive(Clone, Debug)]
pub struct MenuButton {
    pub title: String,
    pub role: ButtonRole,
    pub colors: ButtonColors,
    pub icon: Option<Icon>,
}

/// The product identifiers the menu asks the store about, in order.
pub open spec fn configured_products() -> Seq<Seq<char>> {
    seq![CONSUMABLE_PRODUCT@, NON_CONSUMABLE_PRODUCT@]
}

/// The identifiers sent when the store is initialised: the consumable, then
/// the non-consumable product.
pub fn product_ids() -> (r: Vec<String>)
    ensures
        r.deep_view() == configured_products(),
{
    let ids = vec![CONSUMABLE_PRODUCT.to_owned(), NON_CONSUMABLE_PRODUCT.to_owned()];
    assert(ids.deep_view() =~= configured_products());
    ids
}

/// The column of store buttons in the middle of the screen, top to bottom:
/// fetch the products, buy the consumable, buy the non-consumable. All three
/// use the default colours and have no icon.
pub fn store_buttons() -> (r: Vec<MenuButton>)
    ensures
        r.len() == 3,
        r[0].title@ == "Fetch products"@,
        r[0].role == ButtonRole::InitializeIap,
        r[1].title@ == "Buy Consumable"@,
        r[1].role matches ButtonRole::PurchaseIap(id) && id@ == CONSUMABLE_PRODUCT@,
        r[2].title@ == "Buy Non Consumable"@,
        r[2].role matches ButtonRole::PurchaseIap(id) && id@ == NON_CONSUMABLE_PRODUCT@,
        forall|i: int|
            0 <= i < 3 ==> {
                &&& r[i].colors.normal == Shade::grey_spec(NORMAL_GREY)
                &&& r[i].colors.hovered == Shade::grey_spec(HOVERED_GREY)
                &&& r[i].icon is None
            },
{
    let colors = ButtonColors::default();
    let mut buttons: Vec<MenuButton> = Vec::new();
    buttons.push(
        MenuButton {
            title: "Fetch products".to_owned(),
            role: ButtonRole::InitializeIap,
            colors,
            icon: None,
        },
    );
    buttons.push(
        MenuButton {
            title: "Buy Consumable".to_owned(),
            role: ButtonRole::PurchaseIap(CONSUMABLE_PRODUCT.to_owned()),
            colors,
            icon: None,
        },
    );
    buttons.push(
        MenuButton {
            title: "Buy Non Consumable".to_owned(),
            role: ButtonRole::PurchaseIap(NON_CONSUMABLE_PRODUCT.to_owned()),
            colors,
            icon: None,
        },
    );
    buttons
}

/// The row of link buttons along the bottom edge, left to right: the engine's
/// page, then the source code. Both are transparent at rest and grey under the
/// pointer.
pub fn link_buttons() -> (r: Vec<MenuButton>)
    ensures
        r.len() == 2,
        r[0].title@ == "Made with Bevy"@,
        r[0].role matches ButtonRole::OpenLink(url) && url@ == ENGINE_URL@,
        r[0].icon == Some(Icon::EngineLogo),
        r[1].title@ == "Open source"@,
        r[1].role matches ButtonRole::OpenLink(url) && url@ == SOURCE_URL@,
        r[1].icon == Some(Icon::SourceLogo),
        forall|i: int|
            0 <= i < 2 ==> {
                &&& r[i].colors.normal == Shade::transparent_spec()
                &&& r[i].colors.hovered == Shade::grey_spec(HOVERED_GREY)
            },
{
    let mut buttons: Vec<MenuButton> = Vec::new();
    buttons.push(
        MenuButton {
            title: "Made with Bevy".to_owned(),
            role: ButtonRole::OpenLink(ENGINE_URL.to_owned()),
            colors: ButtonColors::see_through(),
            icon: Some(Icon::EngineLogo),
        },
    );
    buttons.push(
        MenuButton {
            title: "Open source".to_owned(),
            role: ButtonRole::OpenLink(SOURCE_URL.to_owned()),
            colors: ButtonColors::see_through(),
            icon: Some(Icon::SourceLogo),
        },
    );
    buttons
}

} // verus!
