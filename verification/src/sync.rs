//! The reconciliation engine: what to do for one declared product, given the
//! record of what was last synchronised for its key, and what to record once
//! the remote has answered.

use crate::api::dev_products::{
    CreateDevProductRequest, CreateDevProductRequestView, UpdateDevProductRequest,
    UpdateDevProductRequestView,
};
use crate::api::gamepasses::{UpdateGamepassRequest, UpdateGamepassRequestView};
use crate::api::{RemoteCall, RemoteCallView};
use crate::config::{Product, ProductType, ProductView};
use crate::digest::{content_digest, hash_file};
use crate::retry::{result_view, CallResult, CallResultView};
use crate::table::Table;
use crate::text::{clone_opt, opt_eq, opt_view};
use vstd::prelude::*;

verus! {

/// The last synchronised state of one key: the remote identifier and the
/// field values that were last pushed successfully.
#[derive(Debug, Clone, PartialEq, Eq)]
pub struct MappingEntry {
    pub roblox_id: u64,
    pub name: Option<String>,
    pub price: Option<u64>,
    pub description: Option<String>,
    /// Content digest of the image that was last uploaded or seen.
    pub image_hash: Option<String>,
}

/// A record as a mathematical value.
pub struct MappingEntryView {
    pub roblox_id: u64,
    pub name: Option<Seq<char>>,
    pub price: Option<u64>,
    pub description: Option<Seq<char>>,
    pub image_hash: Option<Seq<char>>,
}

impl View for MappingEntry {
    type V = MappingEntryView;

    open spec fn view(&self) -> MappingEntryView {
        MappingEntryView {
            roblox_id: self.roblox_id,
            name: opt_view(self.name),
            price: self.price,
            description: opt_view(self.description),
            image_hash: opt_view(self.image_hash),
        }
    }
}

/// The records by key.
pub type Mapping = Table<MappingEntry>;

/// The records by key, as a mathematical map.
pub type Records = Map<Seq<char>, MappingEntryView>;

/// Why a product could not be synchronised.
#[derive(Debug, Clone, PartialEq, Eq)]
pub enum SyncError {
    /// The image at this path has to be uploaded and could not be read.
    AssetUnreadable(String),
    /// The remote kept answering that the rate limit was hit. Holds the
    /// description of its last answer.
    RateLimitExhausted(String),
    /// The remote refused the call, or its answer could not be used. Holds the
    /// description of the failure.
    RemoteRejected(String),
}

/// A failure as a mathematical value.
pub enum SyncErrorView {
    AssetUnreadable(Seq<char>),
    RateLimitExhausted(Seq<char>),
    RemoteRejected(Seq<char>),
}

impl View for SyncError {
    type V = SyncErrorView;

    open spec fn view(&self) -> SyncErrorView {
        match *self {
            SyncError::AssetUnreadable(path) => SyncErrorView::AssetUnreadable(path@),
            SyncError::RateLimitExhausted(text) => SyncErrorView::RateLimitExhausted(text@),
            SyncError::RemoteRejected(text) => SyncErrorView::RemoteRejected(text@),
        }
    }
}

/// What became of one declared product in one run.
#[derive(Debug, Clone, PartialEq, Eq)]
pub enum Outcome {
    Created,
    Updated,
    Skipped,
    Failed(SyncError),
}

/// An outcome as a mathematical value.
pub enum OutcomeView {
    Created,
    Updated,
    Skipped,
    Failed(SyncErrorView),
}

impl View for Outcome {
    type V = OutcomeView;

    open spec fn view(&self) -> OutcomeView {
        match *self {
            Outcome::Created => OutcomeView::Created,
            Outcome::Updated => OutcomeView::Updated,
            Outcome::Skipped => OutcomeView::Skipped,
            Outcome::Failed(e) => OutcomeView::Failed(e@),
        }
    }
}

impl SyncErrorView {
    /// The text that reports the failure.
    pub open spec fn message(self) -> Seq<char> {
        match self {
            SyncErrorView::AssetUnreadable(path) => "Failed to read icon file: "@ + path,
            SyncErrorView::RateLimitExhausted(text) => text,
            SyncErrorView::RemoteRejected(text) => text,
        }
    }
}

impl SyncError {
    /// The text that reports the failure.
    pub fn to_string(&self) -> (s: String)
        ensures
            s@ == self@.message(),
    {
        match self {
            SyncError::AssetUnreadable(path) => {
                let mut s = "Failed to read icon file: ".to_owned();
                s.append(path.as_str());
                s
            },
            SyncError::RateLimitExhausted(text) => text.clone(),
            SyncError::RemoteRejected(text) => text.clone(),
        }
    }
}

impl OutcomeView {
    /// The word that reports the outcome.
    pub open spec fn action(self) -> Seq<char> {
        match self {
            OutcomeView::Created => "created"@,
            OutcomeView::Updated => "updated"@,
            OutcomeView::Skipped => "skipped"@,
            OutcomeView::Failed(_) => "error"@,
        }
    }

    /// The text of the failure, if the outcome is one.
    pub open spec fn error(self) -> Option<Seq<char>> {
        match self {
            OutcomeView::Failed(e) => Some(e.message()),
            _ => None,
        }
    }
}

/// The result of one product as it is reported: what was done, and the text
/// of the failure if there was one.
#[derive(Debug, Clone, PartialEq, Eq)]
pub struct SyncResult {
    pub action: String,
    pub error: Option<String>,
}

/// A reported result as a mathematical value.
pub struct SyncResultView {
    pub action: Seq<char>,
    pub error: Option<Seq<char>>,
}

impl View for SyncResult {
    type V = SyncResultView;

    open spec fn view(&self) -> SyncResultView {
        SyncResultView { action: self.action@, error: opt_view(self.error) }
    }
}

impl SyncResult {
    /// Reports an outcome: `created`, `updated` or `skipped` without an
    /// error, or `error` with the text of the failure.
    pub fn from_outcome(outcome: &Outcome) -> (r: SyncResult)
        ensures
            r@ == (SyncResultView { action: outcome@.action(), error: outcome@.error() }),
    {
        match outcome {
            Outcome::Created => SyncResult { action: "created".to_owned(), error: None },
            Outcome::Updated => SyncResult { action: "updated".to_owned(), error: None },
            Outcome::Skipped => SyncResult { action: "skipped".to_owned(), error: None },
            Outcome::Failed(e) => SyncResult {
                action: "error".to_owned(),
                error: Some(e.to_string()),
            },
        }
    }
}

/// The next step for one declared product.
#[derive(Debug, Clone, PartialEq, Eq)]
pub enum SyncStep {
    /// Nothing changed since the last synchronisation: no remote call.
    Skip,
    /// The image at this path would have to be uploaded and could not be
    /// read: the product fails without a remote call.
    Unreadable(String),
    /// Make this call.
    Call(RemoteCall),
}

/// A step as a mathematical value.
pub enum SyncStepView {
    Skip,
    Unreadable(Seq<char>),
    Call(RemoteCallView),
}

impl View for SyncStep {
    type V = SyncStepView;

    open spec fn view(&self) -> SyncStepView {
        match *self {
            SyncStep::Skip => SyncStepView::Skip,
            SyncStep::Unreadable(path) => SyncStepView::Unreadable(path@),
            SyncStep::Call(call) => SyncStepView::Call(call@),
        }
    }
}

/// The record stored under `key`, if there is one.
pub open spec fn record_of(records: Records, key: Seq<char>) -> Option<MappingEntryView> {
    if records.contains_key(key) {
        Some(records[key])
    } else {
        None
    }
}

/// The remote identifier that a product goes by: the one pinned in the
/// declaration, else the recorded one.
pub open spec fn resolved_id(product: ProductView, record: Option<MappingEntryView>) -> Option<
    u64,
> {
    match product.product_id {
        Some(id) => Some(id),
        None => match record {
            Some(r) => Some(r.roblox_id),
            None => None,
        },
    }
}

/// The image digest of a record; absent where there is no record.
pub open spec fn stored_digest(record: Option<MappingEntryView>) -> Option<Seq<char>> {
    match record {
        Some(r) => r.image_hash,
        None => None,
    }
}

/// The digest of a product's image, given what reading the image file gave.
/// No image, or an image that could not be read, has no digest.
pub open spec fn image_digest(product: ProductView, content: Option<Seq<u8>>) -> Option<
    Seq<char>,
> {
    match (product.image, content) {
        (Some(_), Some(bytes)) => Some(content_digest(bytes)),
        _ => None,
    }
}

/// Whether a declaration differs from a record: in name, price or
/// description, or in the digest of its image.
pub open spec fn has_changed(
    product: ProductView,
    digest: Option<Seq<char>>,
    entry: MappingEntryView,
) -> bool {
    ||| entry.name != Some(product.name)
    ||| entry.price != Some(product.price)
    ||| entry.description != product.description
    ||| digest != entry.image_hash
}

/// Whether the image itself has to be sent again: the product has an image
/// and its digest is not the recorded one.
pub open spec fn asset_differs(
    product: ProductView,
    digest: Option<Seq<char>>,
    record: Option<MappingEntryView>,
) -> bool {
    product.image is Some && digest != stored_digest(record)
}

/// The record of a product that was just synchronised under `id`.
pub open spec fn synced_entry(id: u64, product: ProductView, digest: Option<Seq<char>>) -> MappingEntryView {
    MappingEntryView {
        roblox_id: id,
        name: Some(product.name),
        price: Some(product.price),
        description: product.description,
        image_hash: digest,
    }
}

/// The call that creates `product` as a product of category `kind`: all its
/// fields, and its image if it has one.
pub open spec fn create_call(
    kind: ProductType,
    universe_id: u64,
    product: ProductView,
) -> RemoteCallView {
    match kind {
        ProductType::DevProduct => RemoteCallView::CreateDevProduct {
            universe_id,
            request: CreateDevProductRequestView {
                name: product.name,
                price: product.price,
                description: product.description,
                icon_path: product.image,
            },
        },
        ProductType::Gamepass => RemoteCallView::CreateGamepass {
            universe_id,
            name: product.name,
            price: product.price,
            description: product.description,
            icon_path: product.image,
        },
    }
}

/// The call that updates the remote product `id` of category `kind` to
/// `product`, sending the icon at `icon_path` if there is one.
pub open spec fn update_call(
    kind: ProductType,
    universe_id: u64,
    id: u64,
    product: ProductView,
    icon_path: Option<Seq<char>>,
) -> RemoteCallView {
    match kind {
        ProductType::DevProduct => RemoteCallView::UpdateDevProduct {
            universe_id,
            product_id: id,
            request: UpdateDevProductRequestView {
                name: Some(product.name),
                price: Some(product.price),
                description: product.description,
                icon_path,
            },
        },
        ProductType::Gamepass => RemoteCallView::UpdateGamepass {
            universe_id,
            gamepass_id: id,
            request: UpdateGamepassRequestView {
                name: Some(product.name),
                price: Some(product.price),
                description: product.description,
                icon_path,
            },
        },
    }
}

/// The step for a product of category `kind` that goes by `existing`, given
/// its record and the digest of its image.
///
/// Without an identifier the product is created. With one, it is skipped if
/// its record shows no change, and updated otherwise; the image goes along
/// only if it differs.
///
/// A declared image without a digest could not be read. The policy for it:
/// the product fails, before any call, exactly when its image would have to
/// be uploaded, that is when the product is to be created or its record
/// holds a digest. Otherwise the image counts as unchanged: there is nothing
/// to hold it against, so the product is skipped or updated without its
/// image, and no digest is recorded. `lemma_unreadable_image_policy` states
/// this.
pub open spec fn plan(
    kind: ProductType,
    universe_id: u64,
    product: ProductView,
    existing: Option<u64>,
    record: Option<MappingEntryView>,
    digest: Option<Seq<char>>,
) -> SyncStepView {
    match existing {
        None => {
            if product.image is Some && digest is None {
                SyncStepView::Unreadable(product.image->0)
            } else {
                SyncStepView::Call(create_call(kind, universe_id, product))
            }
        },
        Some(id) => {
            if record is Some && !has_changed(product, digest, record->0) {
                SyncStepView::Skip
            } else if asset_differs(product, digest, record) {
                if digest is None {
                    SyncStepView::Unreadable(product.image->0)
                } else {
                    SyncStepView::Call(update_call(kind, universe_id, id, product, product.image))
                }
            } else {
                SyncStepView::Call(update_call(kind, universe_id, id, product, None))
            }
        },
    }
}

/// The digest of a product's image, given what reading the image file gave.
pub fn image_hash(product: &Product, content: &Option<Vec<u8>>) -> (r: Option<String>)
    ensures
        opt_view(r) == image_digest(product@, crate::digest::bytes_view(*content)),
        r matches Some(s) ==> s@.len() == 64,
{
    match &product.image {
        Some(_) => hash_file(content),
        None => None,
    }
}

/// The view of an optional reference to a record.
pub open spec fn entry_view(record: Option<&MappingEntry>) -> Option<MappingEntryView> {
    match record {
        Some(e) => Some(e@),
        None => None,
    }
}

/// Whether `product` differs from what `entry` records, where `image_hash` is
/// the digest of the product's image.
pub fn config_changed(product: &Product, entry: &MappingEntry, image_hash: &Option<String>) -> (r:
    bool)
    ensures
        r == has_changed(product@, opt_view(*image_hash), entry@),
{
    let name_same = match &entry.name {
        Some(n) => n.as_str().eq(product.name.as_str()),
        None => false,
    };
    let price_same = match entry.price {
        Some(p) => p == product.price,
        None => false,
    };
    !name_same || !price_same || !opt_eq(&entry.description, &product.description) || !opt_eq(
        image_hash,
        &entry.image_hash,
    )
}

/// Whether the product's image has to be sent again, where `image_hash` is
/// its digest and `record` what is recorded for the product, if anything.
pub fn asset_changed(
    product: &Product,
    record: Option<&MappingEntry>,
    image_hash: &Option<String>,
) -> (r: bool)
    ensures
        r == asset_differs(product@, opt_view(*image_hash), entry_view(record)),
{
    if product.image.is_none() {
        return false;
    }
    match record {
        Some(e) => !opt_eq(image_hash, &e.image_hash),
        None => image_hash.is_some(),
    }
}

/// Brings a record up to date after a successful synchronisation of
/// `product`. The remote identifier stays as it is.
pub fn update_mapping_entry(
    entry: &mut MappingEntry,
    product: &Product,
    image_hash: &Option<String>,
)
    ensures
        final(entry)@ == synced_entry(old(entry).roblox_id, product@, opt_view(*image_hash)),
{
    entry.name = Some(product.name.clone());
    entry.price = Some(product.price);
    entry.description = clone_opt(&product.description);
    entry.image_hash = clone_opt(image_hash);
}

/// The remote identifier that `product` goes by under `key`: the one pinned
/// in the declaration, else the recorded one.
pub fn resolve_existing_id(key: &str, product: &Product, mapping: &Mapping) -> (r: Option<u64>)
    ensures
        r == resolved_id(product@, record_of(mapping@, key@)),
{
    match product.product_id {
        Some(id) => Some(id),
        None => match mapping.get(key) {
            Some(e) => Some(e.roblox_id),
            None => None,
        },
    }
}

/// The call that creates `product` as a product of category `kind`.
fn build_create_call(kind: ProductType, universe_id: u64, product: &Product) -> (call: RemoteCall)
    ensures
        call@ == create_call(kind, universe_id, product@),
{
    match kind {
        ProductType::DevProduct => RemoteCall::CreateDevProduct {
            universe_id,
            request: CreateDevProductRequest {
                name: product.name.clone(),
                price: product.price,
                description: clone_opt(&product.description),
                icon_path: clone_opt(&product.image),
            },
        },
        ProductType::Gamepass => RemoteCall::CreateGamepass {
            universe_id,
            name: product.name.clone(),
            price: product.price,
            description: clone_opt(&product.description),
            icon_path: clone_opt(&product.image),
        },
    }
}

/// The call that updates the remote product `id` of category `kind`.
fn build_update_call(
    kind: ProductType,
    universe_id: u64,
    id: u64,
    product: &Product,
    icon_path: Option<String>,
) -> (call: RemoteCall)
    ensures
        call@ == update_call(kind, universe_id, id, product@, opt_view(icon_path)),
{
    match kind {
        ProductType::DevProduct => RemoteCall::UpdateDevProduct {
            universe_id,
            product_id: id,
            request: UpdateDevProductRequest {
                name: Some(product.name.clone()),
                price: Some(product.price),
                description: clone_opt(&product.description),
                icon_path,
            },
        },
        ProductType::Gamepass => RemoteCall::UpdateGamepass {
            universe_id,
            gamepass_id: id,
            request: UpdateGamepassRequest {
                name: Some(product.name.clone()),
                price: Some(product.price),
                description: clone_opt(&product.description),
                icon_path,
            },
        },
    }
}

/// The step for `product` as a product of category `kind`.
fn plan_step(
    kind: ProductType,
    universe_id: u64,
    key: &str,
    product: &Product,
    existing_id: Option<u64>,
    mapping: &Mapping,
    image_hash: &Option<String>,
) -> (step: SyncStep)
    ensures
        step@ == plan(
            kind,
            universe_id,
            product@,
            existing_id,
            record_of(mapping@, key@),
            opt_view(*image_hash),
        ),
{
    let record = mapping.get(key);
    match existing_id {
        Some(id) => {
            if let Some(entry) = record {
                if !config_changed(product, entry, image_hash) {
                    return SyncStep::Skip;
                }
            }
            if asset_changed(product, record, image_hash) {
                match (&product.image, image_hash) {
                    (Some(path), Some(_)) => SyncStep::Call(
                        build_update_call(kind, universe_id, id, product, Some(path.clone())),
                    ),
                    (Some(path), None) => SyncStep::Unreadable(path.clone()),
                    (None, _) => SyncStep::Call(
                        build_update_call(kind, universe_id, id, product, None),
                    ),
                }
            } else {
                SyncStep::Call(build_update_call(kind, universe_id, id, product, None))
            }
        },
        None => {
            match (&product.image, image_hash) {
                (Some(path), None) => SyncStep::Unreadable(path.clone()),
                _ => SyncStep::Call(build_create_call(kind, universe_id, product)),
            }
        },
    }
}

/// The step for a developer product that goes by `existing_id`: skip it,
/// fail it for want of its image, or make the call that creates or updates
/// it.
pub fn sync_dev_product(
    universe_id: u64,
    key: &str,
    product: &Product,
    existing_id: Option<u64>,
    mapping: &Mapping,
    image_hash: &Option<String>,
) -> (step: SyncStep)
    ensures
        step@ == plan(
            ProductType::DevProduct,
            universe_id,
            product@,
            existing_id,
            record_of(mapping@, key@),
            opt_view(*image_hash),
        ),
{
    plan_step(ProductType::DevProduct, universe_id, key, product, existing_id, mapping, image_hash)
}

/// The step for a gamepass that goes by `existing_id`: skip it, fail it for
/// want of its image, or make the call that creates or updates it.
pub fn sync_gamepass(
    universe_id: u64,
    key: &str,
    product: &Product,
    existing_id: Option<u64>,
    mapping: &Mapping,
    image_hash: &Option<String>,
) -> (step: SyncStep)
    ensures
        step@ == plan(
            ProductType::Gamepass,
            universe_id,
            product@,
            existing_id,
            record_of(mapping@, key@),
            opt_view(*image_hash),
        ),
{
    plan_step(ProductType::Gamepass, universe_id, key, product, existing_id, mapping, image_hash)
}

/// The step for the product declared under `key`, where `image_hash` is the
/// digest of its image.
pub fn sync_product(
    universe_id: u64,
    key: &str,
    product: &Product,
    mapping: &Mapping,
    image_hash: &Option<String>,
) -> (step: SyncStep)
    ensures
        step@ == plan(
            product.product_type,
            universe_id,
            product@,
            resolved_id(product@, record_of(mapping@, key@)),
            record_of(mapping@, key@),
            opt_view(*image_hash),
        ),
{
    let existing_id = resolve_existing_id(key, product, mapping);
    match product.product_type {
        ProductType::DevProduct => sync_dev_product(
            universe_id,
            key,
            product,
            existing_id,
            mapping,
            image_hash,
        ),
        ProductType::Gamepass => sync_gamepass(
            universe_id,
            key,
            product,
            existing_id,
            mapping,
            image_hash,
        ),
    }
}

/// The description of a creation whose answer carried no identifier.
pub open spec fn unreadable_answer(call: RemoteCallView) -> Seq<char> {
    if call is CreateGamepass {
        "Failed to parse gamepass response"@
    } else {
        "Failed to parse dev product response"@
    }
}

/// The records after `call` for the product under `key` ended with `result`.
///
/// A failure changes nothing. A successful update stores, under `key`, the
/// declared values with the identifier that the update addressed: a record
/// that held another identifier is corrected. A successful creation stores a
/// record with the returned identifier; a creation whose answer carried none
/// changes nothing.
pub open spec fn settled_records(
    records: Records,
    key: Seq<char>,
    product: ProductView,
    digest: Option<Seq<char>>,
    call: RemoteCallView,
    result: CallResultView,
) -> Records {
    match result {
        Err(_) => records,
        Ok(answer) => match call.target() {
            Some(target) => records.insert(key, synced_entry(target, product, digest)),
            None => match answer {
                Some(id) => records.insert(key, synced_entry(id, product, digest)),
                None => records,
            },
        },
    }
}

/// The outcome of a product whose `call` ended with `result`.
pub open spec fn settled_outcome(call: RemoteCallView, result: CallResultView) -> OutcomeView {
    match result {
        Err(e) => OutcomeView::Failed(e),
        Ok(answer) => if call.target() is Some {
            OutcomeView::Updated
        } else if answer is Some {
            OutcomeView::Created
        } else {
            OutcomeView::Failed(SyncErrorView::RemoteRejected(unreadable_answer(call)))
        },
    }
}

/// The outcome of a step that makes no call.
pub open spec fn immediate_outcome(step: SyncStepView) -> Option<OutcomeView> {
    match step {
        SyncStepView::Skip => Some(OutcomeView::Skipped),
        SyncStepView::Unreadable(path) => Some(
            OutcomeView::Failed(SyncErrorView::AssetUnreadable(path)),
        ),
        SyncStepView::Call(_) => None,
    }
}

impl SyncStep {
    /// The outcome of a step that makes no call; `None` for a call.
    pub fn outcome(&self) -> (r: Option<Outcome>)
        ensures
            r is Some <==> immediate_outcome(self@) is Some,
            r matches Some(o) ==> Some(o@) == immediate_outcome(self@),
    {
        match self {
            SyncStep::Skip => Some(Outcome::Skipped),
            SyncStep::Unreadable(path) => Some(
                Outcome::Failed(SyncError::AssetUnreadable(path.clone())),
            ),
            SyncStep::Call(_) => None,
        }
    }
}

/// Records that a product was created remotely under `id`.
pub fn record_created(
    mapping: &mut Mapping,
    key: &str,
    product: &Product,
    image_hash: &Option<String>,
    id: u64,
)
    ensures
        final(mapping)@ == old(mapping)@.insert(
            key@,
            synced_entry(id, product@, opt_view(*image_hash)),
        ),
{
    let entry = MappingEntry {
        roblox_id: id,
        name: Some(product.name.clone()),
        price: Some(product.price),
        description: clone_opt(&product.description),
        image_hash: clone_opt(image_hash),
    };
    mapping.insert(key.to_owned(), entry);
}

/// Records that the remote product `id` was updated to `product`: the record
/// under `key` then holds `id` and the declared values, whatever it held
/// before.
pub fn record_updated(
    mapping: &mut Mapping,
    key: &str,
    product: &Product,
    image_hash: &Option<String>,
    id: u64,
)
    ensures
        final(mapping)@ == old(mapping)@.insert(
            key@,
            synced_entry(id, product@, opt_view(*image_hash)),
        ),
{
    let mut entry = MappingEntry {
        roblox_id: id,
        name: None,
        price: None,
        description: None,
        image_hash: None,
    };
    update_mapping_entry(&mut entry, product, image_hash);
    mapping.insert(key.to_owned(), entry);
}

/// Settles one product after its remote call has ended: brings the records
/// up to date on success, leaves them untouched on failure, and gives the
/// product's outcome.
pub fn finish_sync(
    mapping: &mut Mapping,
    key: &str,
    product: &Product,
    image_hash: &Option<String>,
    call: &RemoteCall,
    result: CallResult,
) -> (outcome: Outcome)
    ensures
        final(mapping)@ == settled_records(
            old(mapping)@,
            key@,
            product@,
            opt_view(*image_hash),
            call@,
            result_view(result),
        ),
        outcome@ == settled_outcome(call@, result_view(result)),
{
    match result {
        Err(e) => Outcome::Failed(e),
        Ok(answer) => match call.target() {
            Some(target) => {
                record_updated(mapping, key, product, image_hash, target);
                Outcome::Updated
            },
            None => match answer {
                Some(id) => {
                    record_created(mapping, key, product, image_hash, id);
                    Outcome::Created
                },
                None => {
                    let text = match call {
                        RemoteCall::CreateGamepass { .. } => "Failed to parse gamepass response",
                        _ => "Failed to parse dev product response",
                    };
                    Outcome::Failed(SyncError::RemoteRejected(text.to_owned()))
                },
            },
        },
    }
}

/// The step for the product declared under `key`, given all records.
pub open spec fn step_for(
    universe_id: u64,
    records: Records,
    key: Seq<char>,
    product: ProductView,
    digest: Option<Seq<char>>,
) -> SyncStepView {
    let record = record_of(records, key);
    plan(product.product_type, universe_id, product, resolved_id(product, record), record, digest)
}

/// The records after the product declared under `key` went through the
/// engine, where `result` is how its remote call ended, if it made one.
pub open spec fn reconciled_records(
    universe_id: u64,
    records: Records,
    key: Seq<char>,
    product: ProductView,
    digest: Option<Seq<char>>,
    result: CallResultView,
) -> Records {
    match step_for(universe_id, records, key, product, digest) {
        SyncStepView::Call(call) => settled_records(records, key, product, digest, call, result),
        _ => records,
    }
}

/// The outcome of the product declared under `key`, where `result` is how
/// its remote call ended, if it made one.
pub open spec fn reconciled_outcome(
    universe_id: u64,
    records: Records,
    key: Seq<char>,
    product: ProductView,
    digest: Option<Seq<char>>,
    result: CallResultView,
) -> OutcomeView {
    let step = step_for(universe_id, records, key, product, digest);
    match step {
        SyncStepView::Call(call) => settled_outcome(call, result),
        _ => immediate_outcome(step)->0,
    }
}

/// Reconciling a product again, with nothing changed, skips it: once a
/// product has gone through without failing, its next step is to skip, with
/// no remote call, whatever else the records hold.
pub proof fn lemma_unchanged_is_skipped(
    universe_id: u64,
    records: Records,
    key: Seq<char>,
    product: ProductView,
    digest: Option<Seq<char>>,
    result: CallResultView,
)
    requires
        !(reconciled_outcome(universe_id, records, key, product, digest, result) is Failed),
    ensures
        step_for(
            universe_id,
            reconciled_records(universe_id, records, key, product, digest, result),
            key,
            product,
            digest,
        ) == SyncStepView::Skip,
{
}

/// A product without a pinned identifier and without a record is created:
/// its step is the one call that creates it with all its fields, and when
/// that call returns an identifier, a record with that identifier and the
/// declared values is stored and the outcome is `Created`.
pub proof fn lemma_new_product_is_created(
    universe_id: u64,
    records: Records,
    key: Seq<char>,
    product: ProductView,
    digest: Option<Seq<char>>,
    id: u64,
)
    requires
        product.product_id is None,
        !records.contains_key(key),
        product.image is Some ==> digest is Some,
    ensures
        step_for(universe_id, records, key, product, digest) == SyncStepView::Call(
            create_call(product.product_type, universe_id, product),
        ),
        create_call(product.product_type, universe_id, product).is_create(),
        create_call(product.product_type, universe_id, product).icon_path() == product.image,
        reconciled_records(universe_id, records, key, product, digest, Ok(Some(id)))
            == records.insert(key, synced_entry(id, product, digest)),
        reconciled_outcome(universe_id, records, key, product, digest, Ok(Some(id)))
            == OutcomeView::Created,
{
}

/// A change of price alone leads to an update that sends no image: where the
/// record agrees with the declaration in all but the price, the step is an
/// update without an icon.
pub proof fn lemma_price_change_keeps_asset(
    universe_id: u64,
    records: Records,
    key: Seq<char>,
    product: ProductView,
    digest: Option<Seq<char>>,
)
    requires
        records.contains_key(key),
        records[key].name == Some(product.name),
        records[key].description == product.description,
        records[key].image_hash == digest,
        records[key].price != Some(product.price),
    ensures
        !asset_differs(product, digest, record_of(records, key)),
        step_for(universe_id, records, key, product, digest) == SyncStepView::Call(
            update_call(
                product.product_type,
                universe_id,
                resolved_id(product, record_of(records, key))->0,
                product,
                None,
            ),
        ),
{
}

/// A change of the image alone leads to an update that sends the image, and
/// whose other fields are those of the record.
pub proof fn lemma_asset_change_keeps_fields(
    universe_id: u64,
    records: Records,
    key: Seq<char>,
    product: ProductView,
    digest: Option<Seq<char>>,
)
    requires
        records.contains_key(key),
        records[key].name == Some(product.name),
        records[key].price == Some(product.price),
        records[key].description == product.description,
        product.image is Some,
        digest is Some,
        records[key].image_hash != digest,
    ensures
        asset_differs(product, digest, record_of(records, key)),
        step_for(universe_id, records, key, product, digest) matches SyncStepView::Call(call)
            && call.icon_path() == product.image && call == update_call(
            product.product_type,
            universe_id,
            resolved_id(product, record_of(records, key))->0,
            ProductView {
                name: records[key].name->0,
                price: records[key].price->0,
                description: records[key].description,
                ..product
            },
            product.image,
        ),
{
}

/// A pinned identifier wins over a recorded one. A product that pins `id` is
/// never created, and any call made for it updates `id`, whatever identifier
/// its record holds. When that call succeeds, the record holds `id` and the
/// declared values: a record with another identifier is corrected. Without a
/// record the product is not skipped.
pub proof fn lemma_pinned_id_wins(
    universe_id: u64,
    records: Records,
    key: Seq<char>,
    product: ProductView,
    digest: Option<Seq<char>>,
    answer: Option<u64>,
)
    requires
        product.product_id is Some,
    ensures
        step_for(universe_id, records, key, product, digest) matches SyncStepView::Call(call)
            ==> call.target() == product.product_id,
        !records.contains_key(key) ==> step_for(universe_id, records, key, product, digest)
            != SyncStepView::Skip,
        step_for(universe_id, records, key, product, digest) is Call ==> reconciled_records(
            universe_id,
            records,
            key,
            product,
            digest,
            Ok(answer),
        ) == records.insert(key, synced_entry(product.product_id->0, product, digest)),
{
}

/// The policy for a declared image that cannot be read, so that it has no
/// digest. No call uploads it. The product fails for want of the image when
/// it would have to be created, or when its record holds a digest and
/// differs from the declaration. Where the record holds no digest, or there
/// is no record beside a pinned identifier, the image counts as unchanged:
/// the product is skipped if nothing else differs, and is updated without
/// its image otherwise, after which its record holds no digest.
pub proof fn lemma_unreadable_image_policy(
    universe_id: u64,
    records: Records,
    key: Seq<char>,
    product: ProductView,
    answer: Option<u64>,
)
    requires
        product.image is Some,
    ensures
        ({
            let record = record_of(records, key);
            let step = step_for(universe_id, records, key, product, None);
            let after = reconciled_records(universe_id, records, key, product, None, Ok(answer));
            &&& match step {
                SyncStepView::Call(call) => call.icon_path() is None && after[key].image_hash
                    is None,
                SyncStepView::Unreadable(path) => path == product.image->0,
                SyncStepView::Skip => true,
            }
            &&& match resolved_id(product, record) {
                None => step is Unreadable,
                Some(id) => if stored_digest(record) is Some {
                    step is Unreadable
                } else if record is Some && !has_changed(product, None, record->0) {
                    step == SyncStepView::Skip
                } else {
                    step == SyncStepView::Call(
                        update_call(product.product_type, universe_id, id, product, None),
                    )
                },
            }
        }),
{
}

/// The identifier of a record does not change unless the declaration pins
/// another one: whatever the pass through the engine of a product without
/// such a pin gives, a record that existed under its key keeps its
/// identifier.
pub proof fn lemma_recorded_id_is_kept(
    universe_id: u64,
    records: Records,
    key: Seq<char>,
    product: ProductView,
    digest: Option<Seq<char>>,
    result: CallResultView,
)
    requires
        records.contains_key(key),
        product.product_id is None || product.product_id == Some(records[key].roblox_id),
    ensures
        reconciled_records(universe_id, records, key, product, digest, result).contains_key(key),
        reconciled_records(universe_id, records, key, product, digest, result)[key].roblox_id
            == records[key].roblox_id,
{
}

/// A call that fails changes no record, whatever the reason: a product
/// whose call ends in failure has the outcome `Failed` with that reason, and
/// the records stay as they were.
pub proof fn lemma_failed_call_keeps_records(
    universe_id: u64,
    records: Records,
    key: Seq<char>,
    product: ProductView,
    digest: Option<Seq<char>>,
    reason: SyncErrorView,
)
    ensures
        reconciled_records(universe_id, records, key, product, digest, Err(reason)) == records,
        step_for(universe_id, records, key, product, digest) is Call ==> reconciled_outcome(
            universe_id,
            records,
            key,
            product,
            digest,
            Err(reason),
        ) == OutcomeView::Failed(reason),
{
}

/// A product's pass through the engine touches no record but its own, and a
/// product that fails or is skipped leaves all records as they were.
pub proof fn lemma_other_records_untouched(
    universe_id: u64,
    records: Records,
    key: Seq<char>,
    product: ProductView,
    digest: Option<Seq<char>>,
    result: CallResultView,
    other: Seq<char>,
)
    requires
        other != key,
    ensures
        record_of(
            reconciled_records(universe_id, records, key, product, digest, result),
            other,
        ) == record_of(records, other),
        reconciled_outcome(universe_id, records, key, product, digest, result) is Failed
            || reconciled_outcome(universe_id, records, key, product, digest, result)
            is Skipped ==> reconciled_records(universe_id, records, key, product, digest, result)
            == records,
{
}

} // verus!
