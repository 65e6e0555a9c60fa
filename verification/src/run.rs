//! A whole run: every declared product goes through the engine in turn.
//!
//! `RunModel` says what a run computes. `SyncRun` is the run as a state
//! machine: it says what to do next, takes what came of it, and keeps the
//! records and the outcomes.

use crate::api::{form_view, FormPart, FormPartView, RemoteCall, RemoteCallView};
use crate::config::{Config, ProductView};
use crate::digest::bytes_view;
use crate::retry::{
    next_step, retry_step, CallResultView, Reply, RetryStep, RetryStepView, MAX_RETRIES,
};
use crate::sync::{
    finish_sync, image_digest, image_hash, immediate_outcome, lemma_other_records_untouched,
    lemma_unchanged_is_skipped, reconciled_outcome, reconciled_records, record_of,
    settled_outcome, settled_records, step_for, sync_product, Mapping, Outcome, OutcomeView,
    Records, SyncStep, SyncStepView,
};
use crate::text::{opt_ref_view, opt_view};
use vstd::prelude::*;

verus! {

/// A run as a mathematical value: what is declared, the records it starts
/// from, and what the outside world gave for each product.
pub struct RunModel {
    pub universe_id: u64,
    /// The records before the run.
    pub initial: Records,
    /// The keys of the declared products, in the order of the run.
    pub keys: Seq<Seq<char>>,
    /// The declared products, each at the index of its key.
    pub products: Seq<ProductView>,
    /// For each product, the digest of its image.
    pub digests: Seq<Option<Seq<char>>>,
    /// For each product, how its remote call ended. The entry of a product
    /// that made no call is of no account.
    pub ends: Seq<CallResultView>,
}

impl RunModel {
    /// The records after the first `n` products went through.
    pub open spec fn records_after(self, n: nat) -> Records
        decreases n,
    {
        if n == 0 {
            self.initial
        } else {
            let i = (n - 1) as nat;
            reconciled_records(
                self.universe_id,
                self.records_after(i),
                self.keys[i as int],
                self.products[i as int],
                self.digests[i as int],
                self.ends[i as int],
            )
        }
    }

    /// The step of product `i` when its turn comes.
    pub open spec fn step_at(self, i: int) -> SyncStepView {
        step_for(
            self.universe_id,
            self.records_after(i as nat),
            self.keys[i],
            self.products[i],
            self.digests[i],
        )
    }

    /// The outcome of product `i`.
    pub open spec fn outcome_at(self, i: int) -> OutcomeView {
        reconciled_outcome(
            self.universe_id,
            self.records_after(i as nat),
            self.keys[i],
            self.products[i],
            self.digests[i],
            self.ends[i],
        )
    }

    /// The outcomes of the first `n` products, in order.
    pub open spec fn outcomes(self, n: nat) -> Seq<OutcomeView> {
        Seq::new(n, |i: int| self.outcome_at(i))
    }

    /// Whether the run has what it needs for its first `n` products: a
    /// product, a digest and an end for each key, and no key twice.
    pub open spec fn covers(self, n: nat) -> bool {
        &&& n <= self.keys.len()
        &&& n <= self.products.len()
        &&& n <= self.digests.len()
        &&& n <= self.ends.len()
        &&& forall|i: int, j: int| 0 <= i < j < n ==> self.keys[i] != self.keys[j]
    }

    /// Whether two runs agree on all that concerns their first `n` products.
    pub open spec fn agrees_with(self, other: RunModel, n: nat) -> bool {
        &&& self.universe_id == other.universe_id
        &&& self.initial == other.initial
        &&& forall|i: int|
            0 <= i < n ==> self.keys[i] == other.keys[i] && self.products[i] == other.products[i]
                && self.digests[i] == other.digests[i] && self.ends[i] == other.ends[i]
    }

    /// The same run with the records `records` to start from and the ends
    /// `ends`.
    pub open spec fn again(self, records: Records, ends: Seq<CallResultView>) -> RunModel {
        RunModel { initial: records, ends, ..self }
    }

    /// The records after `n` products depend on those products alone.
    pub proof fn lemma_prefix(self, other: RunModel, n: nat)
        requires
            self.agrees_with(other, n),
        ensures
            self.records_after(n) == other.records_after(n),
            forall|i: int| 0 <= i < n ==> self.outcome_at(i) == other.outcome_at(i),
        decreases n,
    {
        if n > 0 {
            self.lemma_prefix(other, (n - 1) as nat);
            assert forall|i: int| 0 <= i < n implies self.outcome_at(i) == other.outcome_at(
                i,
            ) by {
                if i == n - 1 {
                } else {
                }
            }
        }
    }

    /// A key that none of the first `n` products has keeps its record
    /// through their turns.
    pub proof fn lemma_untouched(self, n: nat, key: Seq<char>)
        requires
            forall|i: int| 0 <= i < n ==> self.keys[i] != key,
        ensures
            record_of(self.records_after(n), key) == record_of(self.initial, key),
        decreases n,
    {
        if n > 0 {
            let i = (n - 1) as nat;
            self.lemma_untouched(i, key);
            lemma_other_records_untouched(
                self.universe_id,
                self.records_after(i),
                self.keys[i as int],
                self.products[i as int],
                self.digests[i as int],
                self.ends[i as int],
                key,
            );
        }
    }

    /// No product's turn depends on another's: the outcome of each product,
    /// and the record it leaves, are those it would have if it went through
    /// alone, whatever the remote answered to the others.
    pub proof fn lemma_products_are_independent(self, n: nat, i: int)
        requires
            self.covers(n),
            0 <= i < n,
        ensures
            self.step_at(i) == step_for(
                self.universe_id,
                self.initial,
                self.keys[i],
                self.products[i],
                self.digests[i],
            ),
            self.outcome_at(i) == reconciled_outcome(
                self.universe_id,
                self.initial,
                self.keys[i],
                self.products[i],
                self.digests[i],
                self.ends[i],
            ),
            record_of(self.records_after(n), self.keys[i]) == record_of(
                reconciled_records(
                    self.universe_id,
                    self.initial,
                    self.keys[i],
                    self.products[i],
                    self.digests[i],
                    self.ends[i],
                ),
                self.keys[i],
            ),
        decreases n,
    {
        self.lemma_untouched(i as nat, self.keys[i]);
        if i < n - 1 {
            let last = (n - 1) as nat;
            self.lemma_products_are_independent(last, i);
            lemma_other_records_untouched(
                self.universe_id,
                self.records_after(last),
                self.keys[last as int],
                self.products[last as int],
                self.digests[last as int],
                self.ends[last as int],
                self.keys[i],
            );
        }
    }

    /// A second run over unchanged declarations skips every product. Where
    /// no product of the first `n` failed, a run that starts from the records
    /// that they left gives `Skipped` for each of them, makes no remote call,
    /// and leaves those records as they are.
    pub proof fn lemma_second_run_skips_all(self, n: nat, ends: Seq<CallResultView>)
        requires
            self.covers(n),
            n <= ends.len(),
            forall|i: int| 0 <= i < n ==> !(self.outcome_at(i) is Failed),
        ensures
            forall|i: int|
                0 <= i < n ==> self.again(self.records_after(n), ends).step_at(i)
                    == SyncStepView::Skip,
            forall|i: int|
                0 <= i < n ==> self.again(self.records_after(n), ends).outcome_at(i)
                    == OutcomeView::Skipped,
            forall|k: nat|
                k <= n ==> self.again(self.records_after(n), ends).records_after(k)
                    == self.records_after(n),
    {
        let second = self.again(self.records_after(n), ends);
        assert forall|i: int| 0 <= i < n implies #[trigger] second.step_at(i)
            == SyncStepView::Skip by {
            self.lemma_products_are_independent(n, i);
            second.lemma_products_are_independent(n, i);
            self.lemma_untouched(i as nat, self.keys[i]);
            lemma_unchanged_is_skipped(
                self.universe_id,
                self.records_after(i as nat),
                self.keys[i],
                self.products[i],
                self.digests[i],
                self.ends[i],
            );
        }
        assert forall|i: int| 0 <= i < n implies #[trigger] second.outcome_at(i)
            == OutcomeView::Skipped by {
            assert(second.step_at(i) == SyncStepView::Skip);
        }
        assert forall|k: nat| k <= n implies #[trigger] second.records_after(k)
            == self.records_after(n) by {
            second.lemma_all_skipped_keeps_records(k);
        }
    }

    /// Products that are all skipped leave the records as they were.
    pub proof fn lemma_all_skipped_keeps_records(self, n: nat)
        requires
            forall|i: int| 0 <= i < n ==> self.step_at(i) == SyncStepView::Skip,
        ensures
            self.records_after(n) == self.initial,
        decreases n,
    {
        if n > 0 {
            self.lemma_all_skipped_keeps_records((n - 1) as nat);
            assert(self.step_at(n - 1) == SyncStepView::Skip);
        }
    }
}

/// What a run is waiting for.
enum Phase {
    Image,
    Reply {
        call: RemoteCall,
        form: Vec<FormPart>,
        image_hash: Option<String>,
        attempt: u32,
        delay_ms: u64,
    },
    Finished,
}

/// What a run is waiting for, as a mathematical value.
pub enum Waiting {
    /// The content of the current product's image.
    Image,
    /// The reply to attempt number `attempt` of `call`, which sends `form`
    /// after a pause of `delay_ms` milliseconds. `digest` is the digest of
    /// the current product's image.
    Reply {
        call: RemoteCallView,
        form: Seq<FormPartView>,
        digest: Option<Seq<char>>,
        attempt: u32,
        delay_ms: u64,
    },
    /// Nothing: every product has had its turn.
    Finished,
}

/// What the caller of a run does next.
pub enum Action<'a> {
    /// Read the image file at `path`, if there is a path, and hand what
    /// reading gave to `image_read`: `None` without a path or where the file
    /// could not be read.
    ReadImage { path: Option<&'a String> },
    /// Pause for `delay_ms` milliseconds, send `call` with the body `form`,
    /// and hand the reply to `replied`.
    Send { call: &'a RemoteCall, form: &'a Vec<FormPart>, delay_ms: u64 },
    /// The run is over.
    Finished,
}

/// A run over all declared products, as a state machine. The products take
/// their turns in the order of their declaration. For each, the run first
/// asks for the content of its image and then, unless the product is
/// skipped or fails at once, for the reply to each attempt of its remote
/// call.
pub struct SyncRun {
    config: Config,
    mapping: Mapping,
    index: usize,
    phase: Phase,
    outcomes: Vec<Outcome>,
    initial: Ghost<Records>,
    digests: Ghost<Seq<Option<Seq<char>>>>,
    ends: Ghost<Seq<CallResultView>>,
}

/// What a run waits for once `done` of `total` products have had their turn.
pub open spec fn waiting_at(done: nat, total: nat) -> Waiting {
    if done < total {
        Waiting::Image
    } else {
        Waiting::Finished
    }
}

impl SyncRun {
    /// The run so far as a mathematical value: the declarations, the records
    /// it started from, and the digest and the end of the call of each
    /// product that has had its turn.
    pub closed spec fn model(&self) -> RunModel {
        RunModel {
            universe_id: self.config.universe_id,
            initial: self.initial@,
            keys: self.config.products.keys(),
            products: self.config.products.values(),
            digests: self.digests@,
            ends: self.ends@,
        }
    }

    /// How many products have had their turn.
    pub open spec fn done(&self) -> nat {
        self.model().digests.len()
    }

    /// The records as they stand.
    pub closed spec fn records(&self) -> Records {
        self.mapping@
    }

    /// The outcomes of the products that have had their turn.
    pub closed spec fn outcome_views(&self) -> Seq<OutcomeView> {
        Seq::new(self.outcomes@.len(), |i: int| self.outcomes@[i]@)
    }

    /// What the run is waiting for.
    pub closed spec fn waiting(&self) -> Waiting {
        match self.phase {
            Phase::Image => Waiting::Image,
            Phase::Reply { call, form, image_hash, attempt, delay_ms } => Waiting::Reply {
                call: call@,
                form: form_view(form@),
                digest: opt_view(image_hash),
                attempt,
                delay_ms,
            },
            Phase::Finished => Waiting::Finished,
        }
    }

    /// The invariant of a run.
    pub closed spec fn wf(&self) -> bool {
        &&& self.config.products.wf()
        &&& self.index == self.digests@.len()
        &&& self.index == self.ends@.len()
        &&& self.index <= self.config.products.keys().len()
        &&& self.waiting() is Finished <==> self.index == self.config.products.keys().len()
        &&& self.mapping@ == self.model().records_after(self.index as nat)
        &&& self.outcome_views() == self.model().outcomes(self.index as nat)
        &&& self.waiting() matches Waiting::Reply { call, digest, attempt, .. } ==> {
            &&& attempt <= MAX_RETRIES
            &&& step_for(
                self.config.universe_id,
                self.mapping@,
                self.config.products.keys()[self.index as int],
                self.config.products.values()[self.index as int],
                digest,
            ) == SyncStepView::Call(call)
        }
    }

    /// What holds of every run: its records and outcomes are those that the
    /// model gives for the products that have had their turn; it is finished
    /// exactly when all have; and while it waits for a reply, the call is the
    /// step of the current product and no more than `MAX_RETRIES` retries
    /// were made.
    pub proof fn lemma_invariant(&self)
        requires
            self.wf(),
        ensures
            self.model().keys.len() == self.model().products.len(),
            self.model().keys.no_duplicates(),
            self.model().ends.len() == self.done(),
            self.done() <= self.model().keys.len(),
            self.model().covers(self.done()),
            self.records() == self.model().records_after(self.done()),
            self.outcome_views() == self.model().outcomes(self.done()),
            self.waiting() is Finished <==> self.done() == self.model().keys.len(),
            self.waiting() matches Waiting::Reply { call, digest, attempt, .. } ==> attempt
                <= MAX_RETRIES && step_for(
                self.model().universe_id,
                self.records(),
                self.model().keys[self.done() as int],
                self.model().products[self.done() as int],
                digest,
            ) == SyncStepView::Call(call),
    {
        self.config.products.lemma_keys_distinct();
    }

    /// Starts a run over the products of `config` from the records in
    /// `mapping`.
    pub fn new(config: Config, mapping: Mapping) -> (run: SyncRun)
        ensures
            run.wf(),
            run.model() == (RunModel {
                universe_id: config.universe_id,
                initial: mapping@,
                keys: config.products.keys(),
                products: config.products.values(),
                digests: Seq::empty(),
                ends: Seq::empty(),
            }),
            run.records() == mapping@,
            run.outcome_views() == Seq::<OutcomeView>::empty(),
            run.waiting() == waiting_at(0, config.products.keys().len()),
    {
        let total = config.products.len();
        let ghost initial = mapping@;
        let phase = if total == 0 {
            Phase::Finished
        } else {
            Phase::Image
        };
        let run = SyncRun {
            config,
            mapping,
            index: 0,
            phase,
            outcomes: Vec::new(),
            initial: Ghost(initial),
            digests: Ghost(Seq::empty()),
            ends: Ghost(Seq::empty()),
        };
        assert(run.outcome_views() =~= Seq::<OutcomeView>::empty());
        assert(run.outcome_views() =~= run.model().outcomes(0));
        run
    }

    /// What to do next.
    pub fn action(&self) -> (action: Action<'_>)
        requires
            self.wf(),
        ensures
            match self.waiting() {
                Waiting::Image => action matches Action::ReadImage { path } && opt_ref_view(path)
                    == self.model().products[self.done() as int].image,
                Waiting::Reply { call, form, delay_ms, .. } => action matches Action::Send {
                    call: c,
                    form: f,
                    delay_ms: d,
                } && c@ == call && form_view(f@) == form && d == delay_ms,
                Waiting::Finished => action is Finished,
            },
    {
        match &self.phase {
            Phase::Image => {
                let product = self.config.products.value_at(self.index);
                Action::ReadImage { path: product.image.as_ref() }
            },
            Phase::Reply { call, form, delay_ms, .. } => Action::Send {
                call,
                form,
                delay_ms: *delay_ms,
            },
            Phase::Finished => Action::Finished,
        }
    }

    /// Ends the turn of the current product with `outcome`, where `digest`
    /// was the digest of its image and `end` the end of its call.
    fn close_turn(
        &mut self,
        outcome: Outcome,
        Ghost(digest): Ghost<Option<Seq<char>>>,
        Ghost(end): Ghost<CallResultView>,
        Ghost(before): Ghost<SyncRun>,
    )
        requires
            before.wf(),
            !(before.waiting() is Finished),
            old(self).config == before.config,
            old(self).index == before.index,
            old(self).outcomes == before.outcomes,
            old(self).initial == before.initial,
            old(self).digests == before.digests,
            old(self).ends == before.ends,
            old(self).mapping@ == reconciled_records(
                before.model().universe_id,
                before.records(),
                before.model().keys[before.done() as int],
                before.model().products[before.done() as int],
                digest,
                end,
            ),
            outcome@ == reconciled_outcome(
                before.model().universe_id,
                before.records(),
                before.model().keys[before.done() as int],
                before.model().products[before.done() as int],
                digest,
                end,
            ),
        ensures
            final(self).wf(),
            final(self).model() == (RunModel {
                digests: before.model().digests.push(digest),
                ends: before.model().ends.push(end),
                ..before.model()
            }),
            final(self).records() == old(self).mapping@,
            final(self).outcome_views() == before.outcome_views().push(outcome@),
            final(self).waiting() == waiting_at(before.done() + 1, before.model().keys.len()),
    {
        proof {
            before.config.products.lemma_keys_distinct();
        }
        let total = self.config.products.len();
        self.outcomes.push(outcome);
        self.digests = Ghost(self.digests@.push(digest));
        self.ends = Ghost(self.ends@.push(end));
        self.index = self.index + 1;
        self.phase = if self.index < total {
            Phase::Image
        } else {
            Phase::Finished
        };
        proof {
            let n = before.done();
            before.model().lemma_prefix(self.model(), n);
            assert(self.model().records_after(n + 1) == self.mapping@);
            assert(self.outcome_views() =~= before.outcome_views().push(outcome@));
            assert(self.outcome_views() =~= self.model().outcomes(n + 1)) by {
                assert forall|i: int| 0 <= i < n + 1 implies self.outcome_views()[i]
                    == self.model().outcome_at(i) by {
                    if i < n {
                        assert(before.outcome_views()[i] == before.model().outcome_at(i));
                    }
                }
            }
        }
    }

    /// Takes what reading the current product's image gave: `None` where the
    /// product has no image or the file could not be read.
    ///
    /// The product is then skipped, fails for want of its image, or has its
    /// call sent. A run that is not waiting for an image stays as it is.
    pub fn image_read(&mut self, content: Option<Vec<u8>>)
        requires
            old(self).wf(),
        ensures
            final(self).wf(),
            !(old(self).waiting() is Image) ==> *final(self) == *old(self),
            old(self).waiting() is Image ==> ({
                let model = old(self).model();
                let i = old(self).done() as int;
                let digest = image_digest(model.products[i], bytes_view(content));
                let step = step_for(
                    model.universe_id,
                    old(self).records(),
                    model.keys[i],
                    model.products[i],
                    digest,
                );
                &&& final(self).records() == old(self).records()
                &&& match step {
                    SyncStepView::Call(call) => {
                        &&& final(self).model() == model
                        &&& final(self).outcome_views() == old(self).outcome_views()
                        &&& call.form(bytes_view(content)) is Ok
                        &&& final(self).waiting() == (Waiting::Reply {
                            call,
                            form: call.form(bytes_view(content))->Ok_0,
                            digest,
                            attempt: 0,
                            delay_ms: 0,
                        })
                    },
                    _ => {
                        &&& final(self).model() == (RunModel {
                            digests: model.digests.push(digest),
                            ends: model.ends.push(Ok(None)),
                            ..model
                        })
                        &&& final(self).outcome_views() == old(self).outcome_views().push(
                            immediate_outcome(step)->0,
                        )
                        &&& final(self).waiting() == waiting_at(
                            old(self).done() + 1,
                            model.keys.len(),
                        )
                    },
                }
            }),
    {
        if let Phase::Image = self.phase {
        } else {
            return ;
        }
        let ghost before = *self;
        let key = self.config.products.key_at(self.index);
        let product = self.config.products.value_at(self.index);
        let digest = image_hash(product, &content);
        let step = sync_product(
            self.config.universe_id,
            key.as_str(),
            product,
            &self.mapping,
            &digest,
        );
        match step {
            SyncStep::Call(call) => {
                proof {
                    call@.lemma_form_is_built(bytes_view(content));
                }
                let form = call.form(&content).unwrap();
                self.phase = Phase::Reply {
                    call,
                    form,
                    image_hash: digest,
                    attempt: 0,
                    delay_ms: 0,
                };
                assert(self.outcome_views() == before.outcome_views());
            },
            other => {
                let outcome = other.outcome().unwrap();
                self.close_turn(outcome, Ghost(opt_view(digest)), Ghost(Ok(None)), Ghost(before));
            },
        }
    }

    /// Takes the reply to the attempt that the run was waiting for.
    ///
    /// A rate-limited attempt is followed by another one after a pause,
    /// until the retries are used up. Any other reply ends the call: on
    /// success the records are brought up to date, on failure they stay as
    /// they are, and the product's outcome is noted. A run that is not
    /// waiting for a reply stays as it is.
    pub fn replied(&mut self, reply: Reply)
        requires
            old(self).wf(),
        ensures
            final(self).wf(),
            !(old(self).waiting() is Reply) ==> *final(self) == *old(self),
            old(self).waiting() matches Waiting::Reply { call, form, digest, attempt, delay_ms }
                ==> ({
                let model = old(self).model();
                let i = old(self).done() as int;
                match next_step(attempt, reply@) {
                    RetryStepView::Retry { attempt: next, delay_ms: pause } => {
                        &&& final(self).model() == model
                        &&& final(self).records() == old(self).records()
                        &&& final(self).outcome_views() == old(self).outcome_views()
                        &&& final(self).waiting() == (Waiting::Reply {
                            call,
                            form,
                            digest,
                            attempt: next,
                            delay_ms: pause,
                        })
                    },
                    RetryStepView::Done(end) => {
                        &&& final(self).model() == (RunModel {
                            digests: model.digests.push(digest),
                            ends: model.ends.push(end),
                            ..model
                        })
                        &&& final(self).records() == settled_records(
                            old(self).records(),
                            model.keys[i],
                            model.products[i],
                            digest,
                            call,
                            end,
                        )
                        &&& final(self).outcome_views() == old(self).outcome_views().push(
                            settled_outcome(call, end),
                        )
                        &&& final(self).waiting() == waiting_at(
                            old(self).done() + 1,
                            model.keys.len(),
                        )
                    },
                }
            }),
    {
        let ghost before = *self;
        let mut phase = Phase::Finished;
        core::mem::swap(&mut self.phase, &mut phase);
        match phase {
            Phase::Reply { call, form, image_hash, attempt, delay_ms } => {
                match retry_step(attempt, reply) {
                    RetryStep::Retry { attempt: next, delay_ms: pause } => {
                        self.phase = Phase::Reply {
                            call,
                            form,
                            image_hash,
                            attempt: next,
                            delay_ms: pause,
                        };
                        assert(self.outcome_views() == before.outcome_views());
                    },
                    RetryStep::Done(end) => {
                        let ghost end_view = crate::retry::result_view(end);
                        let key = self.config.products.key_at(self.index);
                        let product = self.config.products.value_at(self.index);
                        let outcome = finish_sync(
                            &mut self.mapping,
                            key.as_str(),
                            product,
                            &image_hash,
                            &call,
                            end,
                        );
                        self.close_turn(
                            outcome,
                            Ghost(opt_view(image_hash)),
                            Ghost(end_view),
                            Ghost(before),
                        );
                    },
                }
            },
            other => {
                let mut other = other;
                core::mem::swap(&mut self.phase, &mut other);
                assert(*self == before);
            },
        }
    }

    /// The declarations of the run.
    pub fn config(&self) -> (config: &Config)
        ensures
            config.universe_id == self.model().universe_id,
            config.products.keys() == self.model().keys,
            config.products.values() == self.model().products,
    {
        &self.config
    }

    /// The records as they stand.
    pub fn mapping(&self) -> (mapping: &Mapping)
        ensures
            mapping@ == self.records(),
    {
        &self.mapping
    }

    /// The outcomes of the products that have had their turn, in order.
    pub fn outcomes(&self) -> (outcomes: &Vec<Outcome>)
        ensures
            outcomes@.len() == self.outcome_views().len(),
            forall|i: int| 0 <= i < outcomes@.len() ==> outcomes@[i]@ == self.outcome_views()[i],
    {
        &self.outcomes
    }

    /// Ends the run and hands back the records.
    pub fn into_mapping(self) -> (mapping: Mapping)
        ensures
            mapping@ == self.records(),
    {
        self.mapping
    }
}

} // verus!
