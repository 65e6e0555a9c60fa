//! The remote interface as data: which call to make, and what came back.

pub mod dev_products;
pub mod gamepasses;

use crate::api::dev_products::{
    CreateDevProductRequest, CreateDevProductRequestView, UpdateDevProductRequest,
    UpdateDevProductRequestView,
};
use crate::api::gamepasses::{UpdateGamepassRequest, UpdateGamepassRequestView};
use crate::sync::{SyncError, SyncErrorView};
use crate::text::{opt_ref_view, opt_str_view, opt_view};
use std::path::Path;
use vstd::prelude::*;

verus! {

/// The final component of the path `path`, as `std::path::Path::file_name`
/// finds it. It depends on the text of the path alone, read in the path syntax
/// of the target that the crate is built for: nothing is looked up on disk.
pub uninterp spec fn path_file_name(path: Seq<char>) -> Option<Seq<char>>;

/// `text` in lower case, as `str::to_lowercase` gives it by the rules of
/// Unicode, which do not depend on a locale.
pub uninterp spec fn lowercase(text: Seq<char>) -> Seq<char>;

/// Whether `i` is the place of the last `.` in `name`.
pub open spec fn is_final_dot(name: Seq<char>, i: int) -> bool {
    &&& 0 <= i < name.len()
    &&& name[i] == '.'
    &&& forall|j: int| i < j < name.len() ==> name[j] != '.'
}

/// The extension of the file name `name`: what follows its last `.`, unless
/// the name holds no `.` or only one at its start.
pub open spec fn extension_in(name: Seq<char>) -> Option<Seq<char>> {
    if exists|i: int| is_final_dot(name, i) {
        let i = choose|i: int| is_final_dot(name, i);
        if i == 0 {
            None
        } else {
            Some(name.subrange(i + 1, name.len() as int))
        }
    } else {
        None
    }
}

/// The extension of the path `path`: that of its final component, if it has
/// one.
pub open spec fn path_extension(path: Seq<char>) -> Option<Seq<char>> {
    match path_file_name(path) {
        Some(name) => extension_in(name),
        None => None,
    }
}

/// Calls `std::path::Path::extension` on `path`. Trusted, as std documents
/// it: there is no extension where the path has no file name, where the file
/// name holds no `.`, or where its only `.` is at its start; otherwise the
/// extension is what follows the last `.` of the file name.
#[verifier::external_body]
fn extension_of(path: &str) -> (r: Option<String>)
    ensures
        opt_view(r) == path_extension(path@),
{
    let ext = Path::new(path).extension()?;
    Some(ext.to_str()?.to_owned())
}

/// Calls `std::path::Path::file_name` on `path`. Trusted: the result is the
/// final component that std finds in the path, which depends on the path
/// alone.
#[verifier::external_body]
fn file_name_of(path: &str) -> (r: Option<String>)
    ensures
        opt_view(r) == path_file_name(path@),
{
    let name = Path::new(path).file_name()?;
    Some(name.to_str()?.to_owned())
}

/// Calls `str::to_lowercase`. Trusted: the result is the lower-case form
/// that std gives, which depends on the text alone.
#[verifier::external_body]
fn to_lowercase(text: &str) -> (r: String)
    ensures
        r@ == lowercase(text@),
{
    text.to_lowercase()
}

/// The MIME type that goes with a lower-case file extension. Anything that is
/// not a known image extension counts as PNG.
pub open spec fn mime_for_extension(ext: Option<Seq<char>>) -> Seq<char> {
    match ext {
        Some(e) => {
            if e == "png"@ {
                "image/png"@
            } else if e == "jpg"@ || e == "jpeg"@ {
                "image/jpeg"@
            } else if e == "gif"@ {
                "image/gif"@
            } else if e == "webp"@ {
                "image/webp"@
            } else if e == "bmp"@ {
                "image/bmp"@
            } else {
                "image/png"@
            }
        },
        None => "image/png"@,
    }
}

/// The MIME type that goes with the file extension `ext`, which is taken as
/// it is: `png`, `jpg`, `jpeg`, `gif`, `webp` and `bmp` are known, and
/// anything else counts as PNG.
pub fn mime_type_for_extension(ext: Option<&str>) -> (mime: &'static str)
    ensures
        mime@ == mime_for_extension(opt_str_view(ext)),
{
    match ext {
        Some(e) => {
            if e.eq("png") {
                "image/png"
            } else if e.eq("jpg") || e.eq("jpeg") {
                "image/jpeg"
            } else if e.eq("gif") {
                "image/gif"
            } else if e.eq("webp") {
                "image/webp"
            } else if e.eq("bmp") {
                "image/bmp"
            } else {
                "image/png"
            }
        },
        None => "image/png",
    }
}

/// The MIME type of the image at `path`, by its extension in any case.
pub open spec fn mime_for_path(path: Seq<char>) -> Seq<char> {
    mime_for_extension(
        match path_extension(path) {
            Some(e) => Some(lowercase(e)),
            None => None,
        },
    )
}

/// The MIME type of the image at `path`, detected from its extension
/// without regard to case. An unknown or missing extension counts as PNG.
pub fn mime_type_for_image(path: &str) -> (mime: &'static str)
    ensures
        mime@ == mime_for_path(path@),
{
    match extension_of(path) {
        Some(ext) => {
            let lower = to_lowercase(ext.as_str());
            mime_type_for_extension(Some(lower.as_str()))
        },
        None => mime_type_for_extension(None),
    }
}

/// The file name to upload under, given the final component of the path.
pub open spec fn upload_name(file_name: Option<Seq<char>>) -> Seq<char> {
    match file_name {
        Some(name) => name,
        None => "icon.png"@,
    }
}

/// The file name to upload under: `file_name`, or `icon.png` where the path
/// had no final component.
pub fn filename_or_default(file_name: Option<String>) -> (name: String)
    ensures
        name@ == upload_name(opt_view(file_name)),
{
    match file_name {
        Some(name) => name,
        None => "icon.png".to_owned(),
    }
}

/// The file name under which the image at `path` is uploaded: the final
/// component of the path, or `icon.png` where it has none.
pub fn filename_for_upload(path: &str) -> (name: String)
    ensures
        name@ == upload_name(path_file_name(path@)),
{
    filename_or_default(file_name_of(path))
}

/// One part of a multipart form.
#[derive(Debug, Clone, PartialEq, Eq)]
pub enum FormPart {
    /// A text field.
    Text { name: String, value: String },
    /// A file, sent under `file_name` with the MIME type `mime_type`.
    File { name: String, file_name: String, mime_type: String, bytes: Vec<u8> },
}

/// A form part as a mathematical value.
pub enum FormPartView {
    Text { name: Seq<char>, value: Seq<char> },
    File { name: Seq<char>, file_name: Seq<char>, mime_type: Seq<char>, bytes: Seq<u8> },
}

impl View for FormPart {
    type V = FormPartView;

    open spec fn view(&self) -> FormPartView {
        match *self {
            FormPart::Text { name, value } => FormPartView::Text { name: name@, value: value@ },
            FormPart::File { name, file_name, mime_type, bytes } => FormPartView::File {
                name: name@,
                file_name: file_name@,
                mime_type: mime_type@,
                bytes: bytes@,
            },
        }
    }
}

/// The parts of a form, each by its view.
pub open spec fn form_view(parts: Seq<FormPart>) -> Seq<FormPartView> {
    Seq::new(parts.len(), |i: int| parts[i]@)
}

/// The text field `name` with the value `value`.
pub open spec fn text_part(name: Seq<char>, value: Seq<char>) -> FormPartView {
    FormPartView::Text { name, value }
}

/// The part that uploads the icon at `path`, which holds `bytes`.
pub open spec fn icon_part(path: Seq<char>, bytes: Seq<u8>) -> FormPartView {
    FormPartView::File {
        name: "imageFile"@,
        file_name: upload_name(path_file_name(path)),
        mime_type: mime_for_path(path),
        bytes,
    }
}

/// The parts that an optional description and an optional icon add to a
/// form, where `icon` is what reading the icon file gave. An icon that could
/// not be read fails the form.
pub open spec fn optional_parts(
    description: Option<Seq<char>>,
    icon_path: Option<Seq<char>>,
    icon: Option<Seq<u8>>,
) -> Result<Seq<FormPartView>, SyncErrorView> {
    let described = match description {
        Some(d) => seq![text_part("description"@, d)],
        None => Seq::<FormPartView>::empty(),
    };
    match icon_path {
        None => Ok(described),
        Some(path) => match icon {
            Some(bytes) => Ok(described.push(icon_part(path, bytes))),
            None => Err(SyncErrorView::AssetUnreadable(path)),
        },
    }
}

/// The view of the result of building a form.
pub open spec fn form_result_view(r: Result<Vec<FormPart>, SyncError>) -> Result<
    Seq<FormPartView>,
    SyncErrorView,
> {
    match r {
        Ok(parts) => Ok(form_view(parts@)),
        Err(e) => Err(e@),
    }
}

/// Makes a text field.
pub(crate) fn make_text(name: &str, value: String) -> (part: FormPart)
    ensures
        part@ == text_part(name@, value@),
{
    FormPart::Text { name: name.to_owned(), value }
}

/// Adds the description and the icon to a form, where `icon` is what reading
/// the icon file gave. Fails where an icon is asked for and could not be
/// read.
pub(crate) fn add_optional_parts(
    parts: Vec<FormPart>,
    description: &Option<String>,
    icon_path: &Option<String>,
    icon: &Option<Vec<u8>>,
) -> (r: Result<Vec<FormPart>, SyncError>)
    ensures
        form_result_view(r) == match optional_parts(
            opt_view(*description),
            opt_view(*icon_path),
            crate::digest::bytes_view(*icon),
        ) {
            Ok(more) => Ok::<Seq<FormPartView>, SyncErrorView>(form_view(parts@) + more),
            Err(e) => Err(e),
        },
{
    let mut parts = parts;
    let ghost start = form_view(parts@);
    if let Some(d) = description {
        parts.push(make_text("description", d.clone()));
    }
    let ghost described = match opt_view(*description) {
        Some(d) => seq![text_part("description"@, d)],
        None => Seq::<FormPartView>::empty(),
    };
    assert(form_view(parts@) =~= start + described);
    match icon_path {
        None => Ok(parts),
        Some(path) => match icon {
            Some(bytes) => {
                let part = FormPart::File {
                    name: "imageFile".to_owned(),
                    file_name: filename_for_upload(path.as_str()),
                    mime_type: mime_type_for_image(path.as_str()).to_owned(),
                    bytes: bytes.clone(),
                };
                parts.push(part);
                assert(form_view(parts@) =~= start + described.push(icon_part(path@, bytes@)));
                Ok(parts)
            },
            None => Err(SyncError::AssetUnreadable(path.clone())),
        },
    }
}

/// One call to the remote, with everything it sends.
#[derive(Debug, Clone, PartialEq, Eq)]
#[allow(inconsistent_fields)]
pub enum RemoteCall {
    CreateDevProduct { universe_id: u64, request: CreateDevProductRequest },
    UpdateDevProduct { universe_id: u64, product_id: u64, request: UpdateDevProductRequest },
    CreateGamepass {
        universe_id: u64,
        name: String,
        price: u64,
        description: Option<String>,
        icon_path: Option<String>,
    },
    UpdateGamepass { universe_id: u64, gamepass_id: u64, request: UpdateGamepassRequest },
}

/// A remote call as a mathematical value.
#[allow(inconsistent_fields)]
pub enum RemoteCallView {
    CreateDevProduct { universe_id: u64, request: CreateDevProductRequestView },
    UpdateDevProduct { universe_id: u64, product_id: u64, request: UpdateDevProductRequestView },
    CreateGamepass {
        universe_id: u64,
        name: Seq<char>,
        price: u64,
        description: Option<Seq<char>>,
        icon_path: Option<Seq<char>>,
    },
    UpdateGamepass { universe_id: u64, gamepass_id: u64, request: UpdateGamepassRequestView },
}

impl View for RemoteCall {
    type V = RemoteCallView;

    open spec fn view(&self) -> RemoteCallView {
        match *self {
            RemoteCall::CreateDevProduct { universe_id, request } => RemoteCallView::CreateDevProduct {
                universe_id,
                request: request@,
            },
            RemoteCall::UpdateDevProduct {
                universe_id,
                product_id,
                request,
            } => RemoteCallView::UpdateDevProduct { universe_id, product_id, request: request@ },
            RemoteCall::CreateGamepass {
                universe_id,
                name,
                price,
                description,
                icon_path,
            } => RemoteCallView::CreateGamepass {
                universe_id,
                name: name@,
                price,
                description: opt_view(description),
                icon_path: opt_view(icon_path),
            },
            RemoteCall::UpdateGamepass {
                universe_id,
                gamepass_id,
                request,
            } => RemoteCallView::UpdateGamepass { universe_id, gamepass_id, request: request@ },
        }
    }
}

impl RemoteCall {
    /// The identifier that an update addresses; `None` for a creation.
    pub fn target(&self) -> (r: Option<u64>)
        ensures
            r == self@.target(),
    {
        match self {
            RemoteCall::UpdateDevProduct { product_id, .. } => Some(*product_id),
            RemoteCall::UpdateGamepass { gamepass_id, .. } => Some(*gamepass_id),
            _ => None,
        }
    }
}

impl RemoteCall {
    /// The path of the icon that the call uploads, if it uploads one.
    pub fn icon_path(&self) -> (r: Option<&String>)
        ensures
            opt_ref_view(r) == self@.icon_path(),
    {
        match self {
            RemoteCall::CreateDevProduct { request, .. } => request.icon_path.as_ref(),
            RemoteCall::UpdateDevProduct { request, .. } => request.icon_path.as_ref(),
            RemoteCall::CreateGamepass { icon_path, .. } => icon_path.as_ref(),
            RemoteCall::UpdateGamepass { request, .. } => request.icon_path.as_ref(),
        }
    }

    /// The form that the call sends, where `icon` is what reading the file at
    /// its icon path gave. Fails where the call uploads an icon that could not
    /// be read.
    pub fn form(&self, icon: &Option<Vec<u8>>) -> (r: Result<Vec<FormPart>, SyncError>)
        ensures
            form_result_view(r) == self@.form(crate::digest::bytes_view(*icon)),
    {
        match self {
            RemoteCall::CreateDevProduct { request, .. } => dev_products::build_create_form(
                request,
                icon,
            ),
            RemoteCall::UpdateDevProduct { request, .. } => dev_products::build_update_form(
                request,
                icon,
            ),
            RemoteCall::CreateGamepass {
                name,
                price,
                description,
                icon_path,
                ..
            } => gamepasses::build_create_form(name.as_str(), *price, description, icon_path, icon),
            RemoteCall::UpdateGamepass { request, .. } => gamepasses::build_update_form(
                request,
                icon,
            ),
        }
    }
}

impl RemoteCallView {
    /// The form that the call sends, where `icon` is what reading the file at
    /// its icon path gave.
    pub open spec fn form(self, icon: Option<Seq<u8>>) -> Result<Seq<FormPartView>, SyncErrorView> {
        match self {
            RemoteCallView::CreateDevProduct { request, .. } => dev_products::create_form(
                request,
                icon,
            ),
            RemoteCallView::UpdateDevProduct { request, .. } => dev_products::update_form(
                request,
                icon,
            ),
            RemoteCallView::CreateGamepass {
                name,
                price,
                description,
                icon_path,
                ..
            } => gamepasses::create_form(name, price, description, icon_path, icon),
            RemoteCallView::UpdateGamepass { request, .. } => gamepasses::update_form(request, icon),
        }
    }

    /// A call's form can be built unless the call uploads an icon that could
    /// not be read.
    pub proof fn lemma_form_is_built(self, icon: Option<Seq<u8>>)
        ensures
            self.form(icon) is Err <==> self.icon_path() is Some && icon is None,
            self.form(icon) matches Err(e) ==> e == SyncErrorView::AssetUnreadable(
                self.icon_path()->0,
            ),
    {
    }

    /// Whether the call creates a product.
    pub open spec fn is_create(self) -> bool {
        self is CreateDevProduct || self is CreateGamepass
    }

    /// The identifier that an update addresses.
    pub open spec fn target(self) -> Option<u64> {
        match self {
            RemoteCallView::UpdateDevProduct { product_id, .. } => Some(product_id),
            RemoteCallView::UpdateGamepass { gamepass_id, .. } => Some(gamepass_id),
            _ => None,
        }
    }

    /// The path of the icon that the call uploads, if it uploads one.
    pub open spec fn icon_path(self) -> Option<Seq<char>> {
        match self {
            RemoteCallView::CreateDevProduct { request, .. } => request.icon_path,
            RemoteCallView::UpdateDevProduct { request, .. } => request.icon_path,
            RemoteCallView::CreateGamepass { icon_path, .. } => icon_path,
            RemoteCallView::UpdateGamepass { request, .. } => request.icon_path,
        }
    }
}

} // verus!
