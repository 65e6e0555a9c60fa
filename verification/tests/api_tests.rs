use spearmint::api::dev_products::{CreateDevProductRequest, UpdateDevProductRequest};
use spearmint::api::gamepasses::UpdateGamepassRequest;
use spearmint::api::{
    filename_for_upload, filename_or_default, mime_type_for_extension, mime_type_for_image,
    FormPart, RemoteCall,
};
use spearmint::sync::SyncError;

fn text(name: &str, value: &str) -> FormPart {
    FormPart::Text { name: name.to_string(), value: value.to_string() }
}

#[test]
fn mime_type_by_extension() {
    assert_eq!(mime_type_for_image("icon.png"), "image/png");
    assert_eq!(mime_type_for_image("icon.jpg"), "image/jpeg");
    assert_eq!(mime_type_for_image("icon.jpeg"), "image/jpeg");
    assert_eq!(mime_type_for_image("icon.gif"), "image/gif");
    assert_eq!(mime_type_for_image("icon.webp"), "image/webp");
    assert_eq!(mime_type_for_image("icon.bmp"), "image/bmp");
}

#[test]
fn mime_type_ignores_case_of_extension() {
    assert_eq!(mime_type_for_image("icon.JPG"), "image/jpeg");
    assert_eq!(mime_type_for_image("icon.Gif"), "image/gif");
    assert_eq!(mime_type_for_image("ICON.WEBP"), "image/webp");
}

#[test]
fn mime_type_uses_last_extension_of_file_name() {
    assert_eq!(mime_type_for_image("assets/icons.v2/coins.tar.gif"), "image/gif");
    assert_eq!(mime_type_for_image("assets.gif/coins"), "image/png");
}

#[test]
fn mime_type_falls_back_to_png() {
    assert_eq!(mime_type_for_image("icon.svg"), "image/png");
    assert_eq!(mime_type_for_image("icon"), "image/png");
    assert_eq!(mime_type_for_image(""), "image/png");
    assert_eq!(mime_type_for_image(".gif"), "image/png");
}

#[test]
fn mime_type_reads_extension_of_final_component_only() {
    assert_eq!(mime_type_for_image("pack.gif/"), "image/gif");
    assert_eq!(mime_type_for_image("pack.gif/.."), "image/png");
    assert_eq!(mime_type_for_image("dir/.webp"), "image/png");
    assert_eq!(mime_type_for_image("dir/a.webp"), "image/webp");
    assert_eq!(mime_type_for_image("dir/..bmp"), "image/bmp");
    assert_eq!(mime_type_for_image("dir/icon.jpg."), "image/png");
}

#[test]
fn mime_type_for_extension_takes_extension_as_it_is() {
    assert_eq!(mime_type_for_extension(Some("jpg")), "image/jpeg");
    assert_eq!(mime_type_for_extension(Some("jpeg")), "image/jpeg");
    assert_eq!(mime_type_for_extension(Some("gif")), "image/gif");
    assert_eq!(mime_type_for_extension(Some("webp")), "image/webp");
    assert_eq!(mime_type_for_extension(Some("bmp")), "image/bmp");
    assert_eq!(mime_type_for_extension(Some("png")), "image/png");
    assert_eq!(mime_type_for_extension(Some("JPG")), "image/png");
    assert_eq!(mime_type_for_extension(Some("")), "image/png");
    assert_eq!(mime_type_for_extension(None), "image/png");
}

#[test]
fn filename_is_final_component() {
    assert_eq!(filename_for_upload("assets/icons/coins.png"), "coins.png");
    assert_eq!(filename_for_upload("coins.png"), "coins.png");
    assert_eq!(filename_for_upload("assets/icons/"), "icons");
}

#[test]
fn filename_defaults_to_icon_png() {
    assert_eq!(filename_for_upload(""), "icon.png");
    assert_eq!(filename_for_upload(".."), "icon.png");
    assert_eq!(filename_for_upload("/"), "icon.png");
}

#[test]
fn filename_or_default_keeps_given_name() {
    assert_eq!(filename_or_default(Some("a.gif".to_string())), "a.gif");
    assert_eq!(filename_or_default(None), "icon.png");
}

#[test]
fn dev_product_create_form_with_all_fields() {
    let request = CreateDevProductRequest {
        name: "Coins".to_string(),
        price: 250,
        description: Some("A bag of coins".to_string()),
        icon_path: Some("assets/coins.JPG".to_string()),
    };
    let form = spearmint::api::dev_products::build_create_form(&request, &Some(vec![1, 2, 3]));
    assert_eq!(
        form,
        Ok(vec![
            text("name", "Coins"),
            text("price", "250"),
            text("description", "A bag of coins"),
            FormPart::File {
                name: "imageFile".to_string(),
                file_name: "coins.JPG".to_string(),
                mime_type: "image/jpeg".to_string(),
                bytes: vec![1, 2, 3],
            },
        ])
    );
}

#[test]
fn dev_product_create_form_with_required_fields_only() {
    let request = CreateDevProductRequest {
        name: "Coins".to_string(),
        price: 0,
        description: None,
        icon_path: None,
    };
    let form = spearmint::api::dev_products::build_create_form(&request, &Some(vec![9]));
    assert_eq!(form, Ok(vec![text("name", "Coins"), text("price", "0")]));
}

#[test]
fn dev_product_create_form_fails_on_unreadable_icon() {
    let request = CreateDevProductRequest {
        name: "Coins".to_string(),
        price: 1,
        description: None,
        icon_path: Some("missing.png".to_string()),
    };
    let form = spearmint::api::dev_products::build_create_form(&request, &None);
    assert_eq!(form, Err(SyncError::AssetUnreadable("missing.png".to_string())));
}

#[test]
fn dev_product_update_form_sends_present_fields_only() {
    let request = UpdateDevProductRequest {
        name: None,
        price: Some(75),
        description: None,
        icon_path: None,
    };
    let form = spearmint::api::dev_products::build_update_form(&request, &None);
    assert_eq!(form, Ok(vec![text("price", "75")]));

    let request = UpdateDevProductRequest {
        name: Some("Gems".to_string()),
        price: None,
        description: Some("Shiny".to_string()),
        icon_path: Some("gems.webp".to_string()),
    };
    let form = spearmint::api::dev_products::build_update_form(&request, &Some(vec![7, 7]));
    assert_eq!(
        form,
        Ok(vec![
            text("name", "Gems"),
            text("description", "Shiny"),
            FormPart::File {
                name: "imageFile".to_string(),
                file_name: "gems.webp".to_string(),
                mime_type: "image/webp".to_string(),
                bytes: vec![7, 7],
            },
        ])
    );
}

#[test]
fn dev_product_update_form_may_be_empty() {
    let request =
        UpdateDevProductRequest { name: None, price: None, description: None, icon_path: None };
    assert_eq!(spearmint::api::dev_products::build_update_form(&request, &None), Ok(vec![]));
}

#[test]
fn dev_product_update_form_fails_on_unreadable_icon() {
    let request = UpdateDevProductRequest {
        name: Some("Gems".to_string()),
        price: Some(1),
        description: None,
        icon_path: Some("gone.png".to_string()),
    };
    assert_eq!(
        spearmint::api::dev_products::build_update_form(&request, &None),
        Err(SyncError::AssetUnreadable("gone.png".to_string()))
    );
}

#[test]
fn gamepass_create_form() {
    let form = spearmint::api::gamepasses::build_create_form(
        "VIP",
        499,
        &Some("All access".to_string()),
        &Some("vip.png".to_string()),
        &Some(vec![5]),
    );
    assert_eq!(
        form,
        Ok(vec![
            text("name", "VIP"),
            text("price", "499"),
            text("description", "All access"),
            FormPart::File {
                name: "imageFile".to_string(),
                file_name: "vip.png".to_string(),
                mime_type: "image/png".to_string(),
                bytes: vec![5],
            },
        ])
    );
    let form = spearmint::api::gamepasses::build_create_form(
        "VIP",
        499,
        &None,
        &Some("vip.png".to_string()),
        &None,
    );
    assert_eq!(form, Err(SyncError::AssetUnreadable("vip.png".to_string())));
}

#[test]
fn gamepass_update_form() {
    let request = UpdateGamepassRequest {
        name: Some("VIP".to_string()),
        price: Some(18446744073709551615),
        description: None,
        icon_path: None,
    };
    assert_eq!(
        spearmint::api::gamepasses::build_update_form(&request, &None),
        Ok(vec![text("name", "VIP"), text("price", "18446744073709551615")])
    );
}

#[test]
fn remote_call_target() {
    let create = RemoteCall::CreateGamepass {
        universe_id: 1,
        name: "VIP".to_string(),
        price: 1,
        description: None,
        icon_path: None,
    };
    assert_eq!(create.target(), None);
    let create = RemoteCall::CreateDevProduct {
        universe_id: 1,
        request: CreateDevProductRequest {
            name: "C".to_string(),
            price: 1,
            description: None,
            icon_path: None,
        },
    };
    assert_eq!(create.target(), None);
    let update = RemoteCall::UpdateDevProduct {
        universe_id: 1,
        product_id: 77,
        request: UpdateDevProductRequest {
            name: None,
            price: None,
            description: None,
            icon_path: None,
        },
    };
    assert_eq!(update.target(), Some(77));
    let update = RemoteCall::UpdateGamepass {
        universe_id: 1,
        gamepass_id: 88,
        request: UpdateGamepassRequest {
            name: None,
            price: None,
            description: None,
            icon_path: None,
        },
    };
    assert_eq!(update.target(), Some(88));
}
