//! How a menu button answers a change of the pointer's interaction with it.
use vstd::prelude::*;
use crate::catalog::{listed_price, lists, Catalog};
use crate::menu::{
    configured_products, product_ids, ButtonRole, MenuButton, CONSUMABLE_PRODUCT, NON_CONSUMABLE_PRODUCT,
};
use crate::palette::{ButtonColors, Shade};

verus! {

/// The pointer's relation to a button, as of this frame.
#[derive(Clone, Copy, Debug, PartialEq, Eq, Structural)]
pub enum Interaction {
    /// The button is being clicked or touched.
    Pressed,
    /// The pointer is over the button.
    Hovered,
    /// The pointer has left the button.
    Idle,
}

/// What must be done in answer to an interaction.
#[derive(Clone, Debug, PartialEq, Eq)]
pub enum ButtonEffect {
    /// Paint the button's background in this colour.
    Recolor(Shade),
    /// Ask the store for the metadata of these products.
    FetchProducts(Vec<String>),
    /// Buy `product`; `price` is its localized price, for information.
    Purchase { product: String, price: String },
    /// The store has not listed this product: nothing is bought.
    Unavailable(String),
    /// Open this address in the system browser.
    OpenLink(String),
}

/// The mathematical value of a [`ButtonRole`].
pub enum RoleModel {
    InitializeIap,
    PurchaseIap(Seq<char>),
    OpenLink(Seq<char>),
}

impl View for ButtonRole {
    type V = RoleModel;

    open spec fn view(&self) -> RoleModel {
        match self {
            ButtonRole::InitializeIap => RoleModel::InitializeIap,
            ButtonRole::PurchaseIap(id) => RoleModel::PurchaseIap(id@),
            ButtonRole::OpenLink(url) => RoleModel::OpenLink(url@),
        }
    }
}

/// The mathematical value of a [`ButtonEffect`].
pub enum EffectModel {
    Recolor(Shade),
    FetchProducts(Seq<Seq<char>>),
    Purchase { product: Seq<char>, price: Seq<char> },
    Unavailable(Seq<char>),
    OpenLink(Seq<char>),
}

impl View for ButtonEffect {
    type V = EffectModel;

    open spec fn view(&self) -> EffectModel {
        match self {
            ButtonEffect::Recolor(s) => EffectModel::Recolor(*s),
            ButtonEffect::FetchProducts(ids) => EffectModel::FetchProducts(ids.deep_view()),
            ButtonEffect::Purchase { product, price } => EffectModel::Purchase {
                product: product@,
                price: price@,
            },
            ButtonEffect::Unavailable(id) => EffectModel::Unavailable(id@),
            ButtonEffect::OpenLink(url) => EffectModel::OpenLink(url@),
        }
    }
}

/// The answer of a button with `role` and `colors` to `interaction`, given the
/// products listed in `catalog`. Hovering and leaving only recolor; pressing
/// never does.
pub open spec fn response(
    role: RoleModel,
    colors: ButtonColors,
    interaction: Interaction,
    catalog: Seq<(Seq<char>, Seq<char>)>,
) -> EffectModel {
    match interaction {
        Interaction::Hovered => EffectModel::Recolor(colors.hovered),
        Interaction::Idle => EffectModel::Recolor(colors.normal),
        Interaction::Pressed => match role {
            RoleModel::InitializeIap => EffectModel::FetchProducts(configured_products()),
            RoleModel::PurchaseIap(id) => if lists(catalog, id) {
                EffectModel::Purchase { product: id, price: listed_price(catalog, id) }
            } else {
                EffectModel::Unavailable(id)
            },
            RoleModel::OpenLink(url) => EffectModel::OpenLink(url),
        },
    }
}

/// What `button` does now that the pointer's interaction with it became
/// `interaction`.
pub fn react(button: &MenuButton, interaction: Interaction, catalog: &Catalog) -> (r: ButtonEffect)
    ensures
        r@ == response(button.role@, button.colors, interaction, catalog@),
{
    match interaction {
        Interaction::Hovered => ButtonEffect::Recolor(button.colors.hovered),
        Interaction::Idle => ButtonEffect::Recolor(button.colors.normal),
        Interaction::Pressed => match &button.role {
            ButtonRole::InitializeIap => ButtonEffect::FetchProducts(product_ids()),
            ButtonRole::PurchaseIap(id) => match catalog.price_localized(id) {
                Some(price) => ButtonEffect::Purchase { product: id.clone(), price },
                None => ButtonEffect::Unavailable(id.clone()),
            },
            ButtonRole::OpenLink(url) => ButtonEffect::OpenLink(url.clone()),
        },
    }
}

/// The background a button shows after `effect`, when it showed `current`
/// before: the new colour of a recolor, else the same as before.
pub open spec fn background_after(effect: EffectModel, current: Shade) -> Shade {
    match effect {
        EffectModel::Recolor(s) => s,
        _ => current,
    }
}

/// Hovering any button paints it in its hovered colour and leaving paints it
/// back in its normal colour, whatever it showed before; pressing leaves the
/// colour as it is, whatever the store says.
pub proof fn lemma_hover_then_leave(
    role: RoleModel,
    colors: ButtonColors,
    catalog: Seq<(Seq<char>, Seq<char>)>,
    current: Shade,
)
    ensures
        background_after(response(role, colors, Interaction::Hovered, catalog), current)
            == colors.hovered,
        background_after(
            response(role, colors, Interaction::Idle, catalog),
            background_after(response(role, colors, Interaction::Hovered, catalog), current),
        ) == colors.normal,
        background_after(response(role, colors, Interaction::Pressed, catalog), current)
            == current,
{
}

/// Pressing the initialize button asks the store about exactly the two
/// configured products, consumable first, whatever the catalog holds.
pub proof fn lemma_initialize_fetches_configured(
    colors: ButtonColors,
    catalog: Seq<(Seq<char>, Seq<char>)>,
)
    ensures
        response(RoleModel::InitializeIap, colors, Interaction::Pressed, catalog)
            == EffectModel::FetchProducts(seq![CONSUMABLE_PRODUCT@, NON_CONSUMABLE_PRODUCT@]),
{
}

/// Pressing a purchase button buys its product if and only if the store has
/// listed that product; otherwise nothing is bought.
pub proof fn lemma_purchase_iff_listed(
    id: Seq<char>,
    colors: ButtonColors,
    catalog: Seq<(Seq<char>, Seq<char>)>,
)
    ensures
        response(RoleModel::PurchaseIap(id), colors, Interaction::Pressed, catalog) is Purchase
            <==> lists(catalog, id),
        response(RoleModel::PurchaseIap(id), colors, Interaction::Pressed, catalog) matches EffectModel::Purchase { product, .. }
            ==> product == id,
        !lists(catalog, id) ==> response(
            RoleModel::PurchaseIap(id),
            colors,
            Interaction::Pressed,
            catalog,
        ) == EffectModel::Unavailable(id),
{
}

/// Pressing a link button opens exactly its configured address.
pub proof fn lemma_link_opens_its_url(
    url: Seq<char>,
    colors: ButtonColors,
    catalog: Seq<(Seq<char>, Seq<char>)>,
)
    ensures
        response(RoleModel::OpenLink(url), colors, Interaction::Pressed, catalog)
            == EffectModel::OpenLink(url),
{
}

} // verus!
