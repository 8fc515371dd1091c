use iap_menu::catalog::{Catalog, Product};
use iap_menu::cleanup::{menu_entities, SceneEntity};
use iap_menu::dispatch::{react, ButtonEffect, Interaction};
use iap_menu::menu::{
    link_buttons, product_ids, store_buttons, ButtonRole, Icon, MenuButton, CONSUMABLE_PRODUCT,
    ENGINE_URL, NON_CONSUMABLE_PRODUCT, SOURCE_URL,
};
use iap_menu::palette::{ButtonColors, Shade};

fn product(id: &str, price: &str) -> Product {
    Product { id: id.to_string(), display_price: price.to_string() }
}

fn all_buttons() -> Vec<MenuButton> {
    let mut buttons = store_buttons();
    buttons.extend(link_buttons());
    buttons
}

fn store_button(index: usize) -> MenuButton {
    store_buttons()[index].clone()
}

#[test]
fn default_colors_are_greys() {
    let colors = ButtonColors::default();
    assert_eq!(colors.normal, Shade { red: 15, green: 15, blue: 15, alpha: 100 });
    assert_eq!(colors.hovered, Shade { red: 25, green: 25, blue: 25, alpha: 100 });
}

#[test]
fn see_through_colors() {
    let colors = ButtonColors::see_through();
    assert_eq!(colors.normal, Shade { red: 0, green: 0, blue: 0, alpha: 0 });
    assert_eq!(colors.hovered, Shade::grey(25));
}

#[test]
fn grey_and_transparent_shades() {
    assert_eq!(Shade::grey(90), Shade { red: 90, green: 90, blue: 90, alpha: 100 });
    assert_eq!(Shade::transparent(), Shade { red: 0, green: 0, blue: 0, alpha: 0 });
}

#[test]
fn configured_product_ids() {
    assert_eq!(
        product_ids(),
        vec![
            "com.thierryberger.bevyiap.testconsumable".to_string(),
            "com.thierryberger.bevyiap.testnonconsumable".to_string(),
        ]
    );
}

#[test]
fn store_column_layout() {
    let buttons = store_buttons();
    assert_eq!(buttons.len(), 3);
    assert_eq!(buttons[0].title, "Fetch products");
    assert_eq!(buttons[0].role, ButtonRole::InitializeIap);
    assert_eq!(buttons[1].title, "Buy Consumable");
    assert_eq!(buttons[1].role, ButtonRole::PurchaseIap(CONSUMABLE_PRODUCT.to_string()));
    assert_eq!(buttons[2].title, "Buy Non Consumable");
    assert_eq!(buttons[2].role, ButtonRole::PurchaseIap(NON_CONSUMABLE_PRODUCT.to_string()));
    for b in &buttons {
        assert_eq!(b.colors, ButtonColors::default());
        assert_eq!(b.icon, None);
    }
}

#[test]
fn link_row_layout() {
    let buttons = link_buttons();
    assert_eq!(buttons.len(), 2);
    assert_eq!(buttons[0].title, "Made with Bevy");
    assert_eq!(buttons[0].role, ButtonRole::OpenLink("https://bevyengine.org".to_string()));
    assert_eq!(buttons[0].icon, Some(Icon::EngineLogo));
    assert_eq!(buttons[1].title, "Open source");
    assert_eq!(
        buttons[1].role,
        ButtonRole::OpenLink("https://github.com/NiklasEi/bevy_game_template".to_string())
    );
    assert_eq!(buttons[1].icon, Some(Icon::SourceLogo));
    for b in &buttons {
        assert_eq!(b.colors.normal, Shade::transparent());
        assert_eq!(b.colors.hovered, Shade::grey(25));
    }
}

#[test]
fn hover_and_leave_recolor_every_button() {
    let catalog = Catalog::new();
    for b in &all_buttons() {
        assert_eq!(react(b, Interaction::Hovered, &catalog), ButtonEffect::Recolor(b.colors.hovered));
        assert_eq!(react(b, Interaction::Idle, &catalog), ButtonEffect::Recolor(b.colors.normal));
    }
}

#[test]
fn hover_on_link_button_lightens_transparent_background() {
    let link = link_buttons()[0].clone();
    let catalog = Catalog::new();
    assert_eq!(
        react(&link, Interaction::Hovered, &catalog),
        ButtonEffect::Recolor(Shade { red: 25, green: 25, blue: 25, alpha: 100 })
    );
    assert_eq!(
        react(&link, Interaction::Idle, &catalog),
        ButtonEffect::Recolor(Shade { red: 0, green: 0, blue: 0, alpha: 0 })
    );
}

#[test]
fn pressing_never_recolors() {
    let mut catalog = Catalog::new();
    catalog.record_products(vec![product(CONSUMABLE_PRODUCT, "0,99 €")]);
    for b in &all_buttons() {
        assert!(!matches!(react(b, Interaction::Pressed, &catalog), ButtonEffect::Recolor(_)));
    }
}

#[test]
fn initialize_fetches_both_products() {
    let catalog = Catalog::new();
    assert_eq!(
        react(&store_button(0), Interaction::Pressed, &catalog),
        ButtonEffect::FetchProducts(vec![
            "com.thierryberger.bevyiap.testconsumable".to_string(),
            "com.thierryberger.bevyiap.testnonconsumable".to_string(),
        ])
    );
}

#[test]
fn purchase_before_store_answer_is_unavailable() {
    let catalog = Catalog::new();
    assert_eq!(
        react(&store_button(1), Interaction::Pressed, &catalog),
        ButtonEffect::Unavailable(CONSUMABLE_PRODUCT.to_string())
    );
}

#[test]
fn purchase_of_listed_product_is_issued_with_price() {
    let mut catalog = Catalog::new();
    catalog.record_products(vec![
        product(NON_CONSUMABLE_PRODUCT, "$4.99"),
        product(CONSUMABLE_PRODUCT, "$0.99"),
    ]);
    assert_eq!(
        react(&store_button(1), Interaction::Pressed, &catalog),
        ButtonEffect::Purchase {
            product: CONSUMABLE_PRODUCT.to_string(),
            price: "$0.99".to_string(),
        }
    );
    assert_eq!(
        react(&store_button(2), Interaction::Pressed, &catalog),
        ButtonEffect::Purchase {
            product: NON_CONSUMABLE_PRODUCT.to_string(),
            price: "$4.99".to_string(),
        }
    );
}

#[test]
fn purchase_of_unlisted_product_is_unavailable() {
    let mut catalog = Catalog::new();
    catalog.record_products(vec![product(CONSUMABLE_PRODUCT, "$0.99")]);
    assert_eq!(
        react(&store_button(2), Interaction::Pressed, &catalog),
        ButtonEffect::Unavailable(NON_CONSUMABLE_PRODUCT.to_string())
    );
}

#[test]
fn newer_store_answer_replaces_older() {
    let mut catalog = Catalog::new();
    catalog.record_products(vec![product(CONSUMABLE_PRODUCT, "$0.99")]);
    catalog.record_products(vec![product(NON_CONSUMABLE_PRODUCT, "$4.99")]);
    assert_eq!(catalog.len(), 1);
    assert!(!catalog.can_purchase(&CONSUMABLE_PRODUCT.to_string()));
    assert!(catalog.can_purchase(&NON_CONSUMABLE_PRODUCT.to_string()));
}

#[test]
fn price_comes_from_first_listing() {
    let mut catalog = Catalog::new();
    catalog.record_products(vec![
        product("other", "1"),
        product("sku", "2"),
        product("sku", "3"),
    ]);
    assert_eq!(catalog.price_localized(&"sku".to_string()), Some("2".to_string()));
    assert_eq!(catalog.price_localized(&"missing".to_string()), None);
    assert_eq!(catalog.len(), 3);
}

#[test]
fn empty_catalog_sells_nothing() {
    let catalog = Catalog::new();
    assert_eq!(catalog.len(), 0);
    assert!(!catalog.can_purchase(&String::new()));
    assert!(!catalog.can_purchase(&CONSUMABLE_PRODUCT.to_string()));
}

#[test]
fn link_buttons_open_their_urls() {
    let catalog = Catalog::new();
    let links = link_buttons();
    assert_eq!(
        react(&links[0], Interaction::Pressed, &catalog),
        ButtonEffect::OpenLink(ENGINE_URL.to_string())
    );
    assert_eq!(
        react(&links[1], Interaction::Pressed, &catalog),
        ButtonEffect::OpenLink(SOURCE_URL.to_string())
    );
}

#[test]
fn cleanup_takes_every_tagged_entity() {
    let entities = vec![
        SceneEntity { id: 7, in_menu: true },
        SceneEntity { id: 3, in_menu: false },
        SceneEntity { id: 12, in_menu: true },
        SceneEntity { id: 1, in_menu: false },
    ];
    let removed = menu_entities(&entities);
    assert_eq!(removed, vec![7, 12]);
    let left: Vec<&SceneEntity> = entities.iter().filter(|e| !removed.contains(&e.id)).collect();
    assert!(left.iter().all(|e| !e.in_menu));
    assert_eq!(left.len(), 2);
}

#[test]
fn cleanup_of_empty_scene() {
    assert_eq!(menu_entities(&Vec::new()), Vec::<u64>::new());
}

#[test]
fn cleanup_without_menu_entities_removes_nothing() {
    let entities = vec![SceneEntity { id: 5, in_menu: false }, SceneEntity { id: u64::MAX, in_menu: false }];
    assert_eq!(menu_entities(&entities), Vec::<u64>::new());
}

#[test]
fn cleanup_with_only_menu_entities_removes_all() {
    let entities = vec![SceneEntity { id: u64::MAX, in_menu: true }, SceneEntity { id: 0, in_menu: true }];
    assert_eq!(menu_entities(&entities), vec![u64::MAX, 0]);
}
