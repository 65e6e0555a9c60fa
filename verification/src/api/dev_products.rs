//! Requests and responses for developer products.

use crate::api::{
    add_optional_parts, form_result_view, make_text, optional_parts, text_part, FormPart,
    FormPartView,
};
use crate::digest::bytes_view;
use crate::sync::{SyncError, SyncErrorView};
use crate::text::{decimal, opt_view, u64_to_string};
use vstd::prelude::*;

verus! {

/// What is sent to create a developer product.
#[derive(Debug, Clone, PartialEq, Eq)]
pub struct CreateDevProductRequest {
    pub name: String,
    pub price: u64,
    pub description: Option<String>,
    /// Path of the icon to upload, if any.
    pub icon_path: Option<String>,
}

/// A creation request for a developer product as a mathematical value.
pub struct CreateDevProductRequestView {
    pub name: Seq<char>,
    pub price: u64,
    pub description: Option<Seq<char>>,
    pub icon_path: Option<Seq<char>>,
}

impl View for CreateDevProductRequest {
    type V = CreateDevProductRequestView;

    open spec fn view(&self) -> CreateDevProductRequestView {
        CreateDevProductRequestView {
            name: self.name@,
            price: self.price,
            description: opt_view(self.description),
            icon_path: opt_view(self.icon_path),
        }
    }
}

/// What is sent to update a developer product. An absent field is left as it
/// is remotely.
#[derive(Debug, Clone, PartialEq, Eq)]
pub struct UpdateDevProductRequest {
    pub name: Option<String>,
    pub price: Option<u64>,
    pub description: Option<String>,
    /// Path of the icon to upload, if it is to be replaced.
    pub icon_path: Option<String>,
}

/// An update request for a developer product as a mathematical value.
pub struct UpdateDevProductRequestView {
    pub name: Option<Seq<char>>,
    pub price: Option<u64>,
    pub description: Option<Seq<char>>,
    pub icon_path: Option<Seq<char>>,
}

impl View for UpdateDevProductRequest {
    type V = UpdateDevProductRequestView;

    open spec fn view(&self) -> UpdateDevProductRequestView {
        UpdateDevProductRequestView {
            name: opt_view(self.name),
            price: self.price,
            description: opt_view(self.description),
            icon_path: opt_view(self.icon_path),
        }
    }
}

/// What the remote answers when a developer product was created.
#[derive(Debug, Clone, Copy, PartialEq, Eq, Structural)]
pub struct DevProductResponse {
    pub product_id: u64,
}

/// The text fields of an update: the name and the price, each if present.
pub open spec fn update_fields(name: Option<Seq<char>>, price: Option<u64>) -> Seq<FormPartView> {
    let named = match name {
        Some(n) => seq![text_part("name"@, n)],
        None => Seq::<FormPartView>::empty(),
    };
    match price {
        Some(p) => named.push(text_part("price"@, decimal(p as nat))),
        None => named,
    }
}

/// The form that creates a developer product: its name and its price in
/// decimal, then the description and the icon if the request has them.
/// `icon` is what reading the icon file gave; an icon that could not be read
/// fails the form.
pub open spec fn create_form(request: CreateDevProductRequestView, icon: Option<Seq<u8>>) -> Result<
    Seq<FormPartView>,
    SyncErrorView,
> {
    match optional_parts(request.description, request.icon_path, icon) {
        Ok(more) => Ok(
            seq![text_part("name"@, request.name), text_part("price"@, decimal(request.price as nat))]
                + more,
        ),
        Err(e) => Err(e),
    }
}

/// The form that updates a developer product: each field that the request
/// holds, in the order name, price, description, icon.
pub open spec fn update_form(request: UpdateDevProductRequestView, icon: Option<Seq<u8>>) -> Result<
    Seq<FormPartView>,
    SyncErrorView,
> {
    match optional_parts(request.description, request.icon_path, icon) {
        Ok(more) => Ok(update_fields(request.name, request.price) + more),
        Err(e) => Err(e),
    }
}

/// Builds the form that creates a developer product, where `icon` is what
/// reading the file at the request's icon path gave.
pub fn build_create_form(request: &CreateDevProductRequest, icon: &Option<Vec<u8>>) -> (r: Result<
    Vec<FormPart>,
    SyncError,
>)
    ensures
        form_result_view(r) == create_form(request@, bytes_view(*icon)),
{
    let mut parts: Vec<FormPart> = Vec::new();
    parts.push(make_text("name", request.name.clone()));
    parts.push(make_text("price", u64_to_string(request.price)));
    assert(crate::api::form_view(parts@) =~= seq![
        text_part("name"@, request@.name),
        text_part("price"@, decimal(request.price as nat)),
    ]);
    add_optional_parts(parts, &request.description, &request.icon_path, icon)
}

/// Builds the form that updates a developer product, where `icon` is what
/// reading the file at the request's icon path gave.
pub fn build_update_form(request: &UpdateDevProductRequest, icon: &Option<Vec<u8>>) -> (r: Result<
    Vec<FormPart>,
    SyncError,
>)
    ensures
        form_result_view(r) == update_form(request@, bytes_view(*icon)),
{
    let parts = build_update_fields(&request.name, request.price);
    add_optional_parts(parts, &request.description, &request.icon_path, icon)
}

/// The text fields of an update.
pub(crate) fn build_update_fields(name: &Option<String>, price: Option<u64>) -> (parts: Vec<
    FormPart,
>)
    ensures
        crate::api::form_view(parts@) == update_fields(opt_view(*name), price),
{
    let mut parts: Vec<FormPart> = Vec::new();
    if let Some(n) = name {
        parts.push(make_text("name", n.clone()));
    }
    let ghost named = crate::api::form_view(parts@);
    assert(named =~= match opt_view(*name) {
        Some(n) => seq![text_part("name"@, n)],
        None => Seq::<FormPartView>::empty(),
    });
    if let Some(p) = price {
        parts.push(make_text("price", u64_to_string(p)));
        assert(crate::api::form_view(parts@) =~= named.push(
            text_part("price"@, decimal(p as nat)),
        ));
    }
    parts
}

} // verus!
