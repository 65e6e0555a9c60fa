//! Requests and responses for gamepasses.

use crate::api::dev_products::{build_update_fields, update_fields};
use crate::api::{
    add_optional_parts, form_result_view, make_text, optional_parts, text_part, FormPart,
    FormPartView,
};
use crate::digest::bytes_view;
use crate::sync::{SyncError, SyncErrorView};
use crate::text::{decimal, opt_view, u64_to_string};
use vstd::prelude::*;

verus! {

/// What the remote answers when a gamepass was created.
#[derive(Debug, Clone, Copy, PartialEq, Eq, Structural)]
pub struct GamepassResponse {
    pub game_pass_id: u64,
}

/// What is sent to update a gamepass. An absent field is left as it is
/// remotely.
#[derive(Debug, Clone, PartialEq, Eq)]
pub struct UpdateGamepassRequest {
    pub name: Option<String>,
    pub price: Option<u64>,
    pub description: Option<String>,
    /// Path of the icon to upload, if it is to be replaced.
    pub icon_path: Option<String>,
}

/// An update request for a gamepass as a mathematical value.
pub struct UpdateGamepassRequestView {
    pub name: Option<Seq<char>>,
    pub price: Option<u64>,
    pub description: Option<Seq<char>>,
    pub icon_path: Option<Seq<char>>,
}

impl View for UpdateGamepassRequest {
    type V = UpdateGamepassRequestView;

    open spec fn view(&self) -> UpdateGamepassRequestView {
        UpdateGamepassRequestView {
            name: opt_view(self.name),
            price: self.price,
            description: opt_view(self.description),
            icon_path: opt_view(self.icon_path),
        }
    }
}

/// The form that creates a gamepass: its name and its price in decimal,
/// then the description and the icon if there are any. `icon` is what reading
/// the icon file gave; an icon that could not be read fails the form.
pub open spec fn create_form(
    name: Seq<char>,
    price: u64,
    description: Option<Seq<char>>,
    icon_path: Option<Seq<char>>,
    icon: Option<Seq<u8>>,
) -> Result<Seq<FormPartView>, SyncErrorView> {
    match optional_parts(description, icon_path, icon) {
        Ok(more) => Ok(
            seq![text_part("name"@, name), text_part("price"@, decimal(price as nat))] + more,
        ),
        Err(e) => Err(e),
    }
}

/// The form that updates a gamepass: each field that the request holds, in
/// the order name, price, description, icon.
pub open spec fn update_form(request: UpdateGamepassRequestView, icon: Option<Seq<u8>>) -> Result<
    Seq<FormPartView>,
    SyncErrorView,
> {
    match optional_parts(request.description, request.icon_path, icon) {
        Ok(more) => Ok(update_fields(request.name, request.price) + more),
        Err(e) => Err(e),
    }
}

/// Builds the form that creates a gamepass, where `icon` is what reading the
/// file at `icon_path` gave.
pub fn build_create_form(
    name: &str,
    price: u64,
    description: &Option<String>,
    icon_path: &Option<String>,
    icon: &Option<Vec<u8>>,
) -> (r: Result<Vec<FormPart>, SyncError>)
    ensures
        form_result_view(r) == create_form(
            name@,
            price,
            opt_view(*description),
            opt_view(*icon_path),
            bytes_view(*icon),
        ),
{
    let mut parts: Vec<FormPart> = Vec::new();
    parts.push(make_text("name", name.to_owned()));
    parts.push(make_text("price", u64_to_string(price)));
    assert(crate::api::form_view(parts@) =~= seq![
        text_part("name"@, name@),
        text_part("price"@, decimal(price as nat)),
    ]);
    add_optional_parts(parts, description, icon_path, icon)
}

/// Builds the form that updates a gamepass, where `icon` is what reading the
/// file at the request's icon path gave.
pub fn build_update_form(request: &UpdateGamepassRequest, icon: &Option<Vec<u8>>) -> (r: Result<
    Vec<FormPart>,
    SyncError,
>)
    ensures
        form_result_view(r) == update_form(request@, bytes_view(*icon)),
{
    let parts = build_update_fields(&request.name, request.price);
    add_optional_parts(parts, &request.description, &request.icon_path, icon)
}

} // verus!
