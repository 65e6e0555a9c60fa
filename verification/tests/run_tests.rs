use spearmint::api::{FormPart, RemoteCall};
use spearmint::config::{Config, Product, ProductType};
use spearmint::digest::hash_bytes;
use spearmint::report::{results_of, summarize, Summary};
use spearmint::retry::Reply;
use spearmint::run::{Action, SyncRun};
use spearmint::sync::{Mapping, MappingEntry, Outcome, SyncError, SyncResult};
use spearmint::table::Table;

const UNIVERSE: u64 = 99;

fn product(product_type: ProductType, name: &str, price: u64, image: Option<&str>) -> Product {
    Product {
        product_type,
        name: name.to_string(),
        price,
        description: None,
        image: image.map(|s| s.to_string()),
        product_id: None,
        offsale: false,
    }
}

fn config_of(items: Vec<(&str, Product)>) -> Config {
    let mut products = Table::new();
    for (key, p) in items {
        products.insert(key.to_string(), p);
    }
    Config { universe_id: UNIVERSE, output: None, products }
}

fn record_for(id: u64, product: &Product, digest: Option<String>) -> MappingEntry {
    MappingEntry {
        roblox_id: id,
        name: Some(product.name.clone()),
        price: Some(product.price),
        description: product.description.clone(),
        image_hash: digest,
    }
}

fn entries(m: &Mapping) -> Vec<(String, MappingEntry)> {
    (0..m.len()).map(|i| (m.key_at(i).clone(), m.value_at(i).clone())).collect()
}

/// What a scripted run saw and gave.
struct Trace {
    mapping: Mapping,
    outcomes: Vec<Outcome>,
    reads: Vec<Option<String>>,
    calls: Vec<RemoteCall>,
    forms: Vec<Vec<FormPart>>,
    delays: Vec<u64>,
}

/// Runs `config` from `mapping` against files given by `read` and a remote
/// given by `remote`.
fn drive(
    config: Config,
    mapping: Mapping,
    read: impl Fn(&str) -> Option<Vec<u8>>,
    mut remote: impl FnMut(&RemoteCall) -> Reply,
) -> Trace {
    let mut run = SyncRun::new(config, mapping);
    let mut reads = Vec::new();
    let mut calls = Vec::new();
    let mut forms = Vec::new();
    let mut delays = Vec::new();
    let mut steps = 0;
    loop {
        steps += 1;
        assert!(steps < 10_000, "the run does not end");
        let event = match run.action() {
            Action::ReadImage { path } => {
                reads.push(path.cloned());
                Ok(path.and_then(|p| read(p)))
            }
            Action::Send { call, form, delay_ms } => {
                calls.push(call.clone());
                forms.push(form.clone());
                delays.push(delay_ms);
                Err(remote(call))
            }
            Action::Finished => break,
        };
        match event {
            Ok(content) => run.image_read(content),
            Err(reply) => run.replied(reply),
        }
    }
    let outcomes = run.outcomes().clone();
    Trace { mapping: run.into_mapping(), outcomes, reads, calls, forms, delays }
}

fn no_files(_: &str) -> Option<Vec<u8>> {
    None
}

#[test]
fn empty_run_finishes_at_once() {
    let run = SyncRun::new(config_of(vec![]), Table::new());
    assert!(matches!(run.action(), Action::Finished));
    assert_eq!(run.outcomes().len(), 0);
    assert_eq!(run.mapping().len(), 0);
}

#[test]
fn run_asks_for_each_image_first() {
    let config = config_of(vec![
        ("coins", product(ProductType::DevProduct, "Coins", 10, Some("coins.png"))),
        ("vip", product(ProductType::Gamepass, "VIP", 300, None)),
    ]);
    let mut next_id = 100;
    let trace = drive(config, Table::new(), no_files, |_| {
        next_id += 1;
        Reply::Success(Some(next_id))
    });
    assert_eq!(trace.reads, vec![Some("coins.png".to_string()), None]);
}

#[test]
fn run_creates_updates_and_skips_in_declaration_order() {
    let coins = product(ProductType::DevProduct, "Coins", 10, Some("img/coins.png"));
    let vip = product(ProductType::Gamepass, "VIP", 300, None);
    let gems = product(ProductType::DevProduct, "Gems", 20, None);
    let config =
        config_of(vec![("coins", coins.clone()), ("vip", vip.clone()), ("gems", gems.clone())]);
    let mut mapping: Mapping = Table::new();
    mapping.insert("gems".to_string(), record_for(3, &gems, None));
    mapping.insert(
        "vip".to_string(),
        record_for(8, &product(ProductType::Gamepass, "VIP", 250, None), None),
    );

    let trace = drive(
        config.clone(),
        mapping,
        |path| if path == "img/coins.png" { Some(b"icon".to_vec()) } else { None },
        |call| match call {
            RemoteCall::CreateDevProduct { .. } => Reply::Success(Some(501)),
            _ => Reply::Success(None),
        },
    );

    assert_eq!(trace.outcomes, vec![Outcome::Created, Outcome::Updated, Outcome::Skipped]);
    assert_eq!(trace.calls.len(), 2);
    assert_eq!(trace.delays, vec![0, 0]);
    assert!(matches!(
        &trace.calls[0],
        RemoteCall::CreateDevProduct { universe_id: UNIVERSE, request }
            if request.name == "Coins" && request.price == 10
                && request.icon_path == Some("img/coins.png".to_string())
    ));
    assert!(matches!(
        &trace.calls[1],
        RemoteCall::UpdateGamepass { universe_id: UNIVERSE, gamepass_id: 8, request }
            if request.price == Some(300) && request.icon_path.is_none()
    ));
    assert_eq!(
        trace.forms[0],
        vec![
            FormPart::Text { name: "name".to_string(), value: "Coins".to_string() },
            FormPart::Text { name: "price".to_string(), value: "10".to_string() },
            FormPart::File {
                name: "imageFile".to_string(),
                file_name: "coins.png".to_string(),
                mime_type: "image/png".to_string(),
                bytes: b"icon".to_vec(),
            },
        ]
    );
    assert_eq!(
        trace.forms[1],
        vec![
            FormPart::Text { name: "name".to_string(), value: "VIP".to_string() },
            FormPart::Text { name: "price".to_string(), value: "300".to_string() },
        ]
    );
    assert_eq!(
        entries(&trace.mapping),
        vec![
            ("gems".to_string(), record_for(3, &gems, None)),
            ("vip".to_string(), record_for(8, &vip, None)),
            ("coins".to_string(), record_for(501, &coins, Some(hash_bytes(b"icon")))),
        ]
    );
}

#[test]
fn second_run_skips_every_product_without_calls() {
    let config = config_of(vec![
        ("coins", product(ProductType::DevProduct, "Coins", 10, Some("coins.png"))),
        ("vip", product(ProductType::Gamepass, "VIP", 300, None)),
        ("gems", product(ProductType::DevProduct, "Gems", 20, Some("unreadable.png"))),
    ]);
    let files = |path: &str| if path == "coins.png" { Some(b"icon".to_vec()) } else { None };
    let mut mapping: Mapping = Table::new();
    mapping.insert(
        "gems".to_string(),
        record_for(3, &product(ProductType::DevProduct, "Gems", 19, None), None),
    );
    let mut next_id = 100;
    let first = drive(config.clone(), mapping, files, |_| {
        next_id += 1;
        Reply::Success(Some(next_id))
    });
    assert_eq!(first.outcomes, vec![Outcome::Created, Outcome::Created, Outcome::Updated]);
    let after_first = entries(&first.mapping);

    let second = drive(config, first.mapping, files, |_| panic!("no call is expected"));
    assert_eq!(second.outcomes, vec![Outcome::Skipped, Outcome::Skipped, Outcome::Skipped]);
    assert!(second.calls.is_empty());
    assert_eq!(entries(&second.mapping), after_first);
}

#[test]
fn always_rate_limited_product_is_attempted_six_times() {
    let coins = product(ProductType::DevProduct, "Coins", 10, None);
    let config = config_of(vec![("coins", coins)]);
    let mut mapping: Mapping = Table::new();
    mapping.insert(
        "coins".to_string(),
        record_for(1, &product(ProductType::DevProduct, "Coins", 9, None), None),
    );
    let before = entries(&mapping);
    let trace =
        drive(config, mapping, no_files, |_| Reply::RateLimited("429 - slow down".to_string()));
    assert_eq!(trace.calls.len(), 6);
    assert_eq!(trace.delays, vec![0, 500, 1000, 2000, 4000, 8000]);
    assert!(trace.calls.iter().all(|c| c == &trace.calls[0]));
    assert_eq!(
        trace.outcomes,
        vec![Outcome::Failed(SyncError::RateLimitExhausted("429 - slow down".to_string()))]
    );
    assert_eq!(entries(&trace.mapping), before);
}

#[test]
fn rate_limit_then_success_resumes_the_run() {
    let config = config_of(vec![
        ("coins", product(ProductType::DevProduct, "Coins", 10, None)),
        ("gems", product(ProductType::DevProduct, "Gems", 20, None)),
    ]);
    let mut replies = vec![
        Reply::RateLimited("429".to_string()),
        Reply::RateLimited("429".to_string()),
        Reply::Success(Some(11)),
        Reply::Success(Some(12)),
    ]
    .into_iter();
    let trace = drive(config, Table::new(), no_files, |_| replies.next().unwrap());
    assert_eq!(trace.outcomes, vec![Outcome::Created, Outcome::Created]);
    assert_eq!(trace.delays, vec![0, 500, 1000, 0]);
    assert_eq!(trace.mapping.get("coins").map(|e| e.roblox_id), Some(11));
    assert_eq!(trace.mapping.get("gems").map(|e| e.roblox_id), Some(12));
}

#[test]
fn failed_product_does_not_stop_the_others() {
    let first = product(ProductType::DevProduct, "Coins", 10, None);
    let second = product(ProductType::Gamepass, "VIP", 300, None);
    let third = product(ProductType::DevProduct, "Gems", 20, None);
    let config = config_of(vec![
        ("coins", first.clone()),
        ("vip", second.clone()),
        ("gems", third.clone()),
    ]);
    let trace = drive(config, Table::new(), no_files, |call| match call {
        RemoteCall::CreateGamepass { .. } => Reply::Rejected("403 Forbidden - denied".to_string()),
        RemoteCall::CreateDevProduct { request, .. } if request.name == "Coins" => {
            Reply::Success(Some(1))
        }
        _ => Reply::Success(Some(3)),
    });
    assert_eq!(
        trace.outcomes,
        vec![
            Outcome::Created,
            Outcome::Failed(SyncError::RemoteRejected("403 Forbidden - denied".to_string())),
            Outcome::Created,
        ]
    );
    assert_eq!(trace.calls.len(), 3);
    assert_eq!(
        entries(&trace.mapping),
        vec![
            ("coins".to_string(), record_for(1, &first, None)),
            ("gems".to_string(), record_for(3, &third, None)),
        ]
    );
    let results = results_of(&trace.outcomes);
    assert_eq!(
        results[1],
        SyncResult {
            action: "error".to_string(),
            error: Some("403 Forbidden - denied".to_string()),
        }
    );
    let summary = summarize(&results);
    assert_eq!(summary, Summary { created: 2, updated: 0, skipped: 0, failed: 1 });
    assert_eq!(summary.exit_code(), 1);
}

#[test]
fn unreadable_image_fails_product_without_call() {
    let config = config_of(vec![
        ("coins", product(ProductType::DevProduct, "Coins", 10, Some("gone.png"))),
        ("gems", product(ProductType::DevProduct, "Gems", 20, None)),
    ]);
    let trace = drive(config, Table::new(), no_files, |_| Reply::Success(Some(5)));
    assert_eq!(
        trace.outcomes,
        vec![
            Outcome::Failed(SyncError::AssetUnreadable("gone.png".to_string())),
            Outcome::Created,
        ]
    );
    assert_eq!(trace.calls.len(), 1);
    assert_eq!(trace.mapping.get("coins"), None);
}

#[test]
fn pinned_id_is_updated_and_recorded() {
    let mut pinned = product(ProductType::Gamepass, "VIP", 300, None);
    pinned.product_id = Some(7);
    let config = config_of(vec![("vip", pinned.clone())]);
    let trace = drive(config, Table::new(), no_files, |_| Reply::Success(None));
    assert_eq!(trace.outcomes, vec![Outcome::Updated]);
    assert!(matches!(&trace.calls[0], RemoteCall::UpdateGamepass { gamepass_id: 7, .. }));
    assert_eq!(entries(&trace.mapping), vec![("vip".to_string(), record_for(7, &pinned, None))]);
}

#[test]
fn pinned_id_replaces_stale_recorded_id() {
    let mut pinned = product(ProductType::DevProduct, "New", 100, None);
    pinned.product_id = Some(42);
    let config = config_of(vec![("k", pinned.clone())]);
    let mut mapping: Mapping = Table::new();
    mapping.insert(
        "k".to_string(),
        record_for(7, &product(ProductType::DevProduct, "Old", 100, None), None),
    );
    let trace = drive(config.clone(), mapping, no_files, |_| Reply::Success(None));
    assert_eq!(trace.outcomes, vec![Outcome::Updated]);
    assert_eq!(trace.calls.len(), 1);
    assert!(matches!(&trace.calls[0], RemoteCall::UpdateDevProduct { product_id: 42, .. }));
    assert_eq!(entries(&trace.mapping), vec![("k".to_string(), record_for(42, &pinned, None))]);

    let again = drive(config, trace.mapping, no_files, |_| panic!("no call is expected"));
    assert_eq!(again.outcomes, vec![Outcome::Skipped]);
}

#[test]
fn events_out_of_turn_are_ignored() {
    let config = config_of(vec![("coins", product(ProductType::DevProduct, "Coins", 10, None))]);
    let mut run = SyncRun::new(config, Table::new());
    assert!(matches!(run.action(), Action::ReadImage { path: None }));
    run.replied(Reply::Success(Some(1)));
    assert!(matches!(run.action(), Action::ReadImage { path: None }));
    assert_eq!(run.outcomes().len(), 0);

    run.image_read(None);
    assert!(matches!(run.action(), Action::Send { delay_ms: 0, .. }));
    run.image_read(Some(vec![1]));
    assert!(matches!(run.action(), Action::Send { delay_ms: 0, .. }));
    assert_eq!(run.outcomes().len(), 0);

    run.replied(Reply::Success(Some(1)));
    assert!(matches!(run.action(), Action::Finished));
    run.replied(Reply::Success(Some(2)));
    run.image_read(None);
    assert!(matches!(run.action(), Action::Finished));
    assert_eq!(run.outcomes(), &vec![Outcome::Created]);
    assert_eq!(run.mapping().get("coins").map(|e| e.roblox_id), Some(1));
    assert_eq!(run.config().universe_id, UNIVERSE);
}

#[test]
fn results_of_reports_outcomes_in_order() {
    let outcomes = vec![
        Outcome::Skipped,
        Outcome::Created,
        Outcome::Failed(SyncError::AssetUnreadable("x.png".to_string())),
        Outcome::Updated,
    ];
    let results = results_of(&outcomes);
    let actions: Vec<&str> = results.iter().map(|r| r.action.as_str()).collect();
    assert_eq!(actions, vec!["skipped", "created", "error", "updated"]);
    assert_eq!(results[2].error, Some("Failed to read icon file: x.png".to_string()));
    assert_eq!(results[0].error, None);
}
