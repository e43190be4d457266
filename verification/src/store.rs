//! The application state store: the single owner of the canonical state,
//! which applies actions and submission events, counts revisions, and
//! publishes every changed state to its subscribers.
use crate::service::{
    is_storage_failure, stores_submission, submission_accepts, AppRepository, AppService, SubmissionPayload,
};
use crate::state::{
    apply_event_spec, initial_state, reduce, AppAction, AppActionView, AppEvent, AppEventView,
    AppReducer, AppState, AppStateView, ApplicationError, ApplicationErrorView, CommandResult,
};
use std::sync::mpsc::{Receiver, Sender};
use vstd::prelude::*;

verus! {

/// `std::sync::mpsc::Sender`, the sending half of a subscription channel.
#[verifier::external_type_specification]
#[verifier::external_body]
#[verifier::reject_recursive_types(T)]
pub struct ExSender<T>(Sender<T>);

/// `std::sync::mpsc::Receiver`, the receiving half of a subscription channel.
#[verifier::external_type_specification]
#[verifier::external_body]
#[verifier::reject_recursive_types(T)]
pub struct ExReceiver<T>(Receiver<T>);

/// Calls `std::sync::mpsc::channel`; nothing is claimed of the two ends.
#[verifier::external_body]
fn open_channel() -> (Sender<AppState>, Receiver<AppState>) {
    std::sync::mpsc::channel()
}

/// Calls `Sender::send` and reports whether it succeeded. Whether it
/// does depends, as std documents, on whether the receiving end still
/// exists; nothing is claimed of the result.
#[verifier::external_body]
fn deliver(sender: &Sender<AppState>, state: AppState) -> bool {
    sender.send(state).is_ok()
}

/// The revision after `r`, wrapping around at the top of the range.
pub open spec fn next_revision(r: u64) -> u64 {
    if r == u64::MAX {
        0
    } else {
        (r + 1) as u64
    }
}

/// The state the store keeps when an update turns `old` into `new`: `old`
/// itself when nothing changed; otherwise `new` under the next revision.
pub open spec fn commit(old: AppStateView, new: AppStateView) -> AppStateView {
    if new == old {
        old
    } else {
        AppStateView { revision: next_revision(old.revision), ..new }
    }
}

/// The event with which a refused action is reported.
pub open spec fn failure_event(e: ApplicationErrorView) -> AppEventView {
    AppEventView::ActionFailed { message: e.message(), kind: e.kind() }
}

/// The state after an event has been applied and committed.
pub open spec fn after_event(s: AppStateView, e: AppEventView) -> AppStateView {
    commit(s, apply_event_spec(s, e).0)
}

/// What dispatching action `a` in state `s` leaves in the store, and what
/// it answers: the committed result of the action, or, for a refused
/// action, the committed report of the refusal together with the error.
pub open spec fn dispatch_outcome(s: AppStateView, a: AppActionView) -> (
    AppStateView,
    Result<Seq<char>, ApplicationErrorView>,
) {
    match reduce(s, a) {
        Ok((t, m)) => (commit(s, t), Ok(m)),
        Err(e) => (after_event(s, failure_event(e)), Err(e)),
    }
}

/// The states that a change from `old` to `new` publishes: `new`, or
/// nothing when the state stayed as it was.
pub open spec fn change(old: AppStateView, new: AppStateView) -> Seq<AppStateView> {
    if new == old {
        Seq::empty()
    } else {
        seq![new]
    }
}

/// The single owner of the application state.
pub struct AppStateStore<R> {
    service: AppService<R>,
    state: AppState,
    /// The senders still kept, each with the subscription it belongs to; a
    /// sender whose receiving end is gone is dropped.
    subscribers: Vec<(Sender<AppState>, Ghost<nat>)>,
    /// How many subscriptions have been made.
    made: Ghost<nat>,
    /// For each subscription, by the order in which it was made, the states
    /// handed to its sender.
    sent: Ghost<spec_fn(nat) -> Seq<AppStateView>>,
}

impl<R> View for AppStateStore<R> {
    type V = AppStateView;

    closed spec fn view(&self) -> AppStateView {
        self.state@
    }
}

impl<R: AppRepository> AppStateStore<R> {
    pub closed spec fn service_spec(&self) -> AppService<R> {
        self.service
    }

    /// How many subscriptions have been made.
    pub closed spec fn subscriptions(&self) -> nat {
        self.made@
    }

    /// Whether the store still keeps the sender of subscription `i`: it was
    /// made, and no send to it has failed.
    pub closed spec fn is_open(&self, i: nat) -> bool {
        holds(self.subscribers@, i)
    }

    /// The states handed to the sender of subscription `i`, in order.
    pub closed spec fn handed(&self, i: nat) -> Seq<AppStateView> {
        (self.sent@)(i)
    }

    /// Going from `old` to `new` hands the states `published`, in order, to
    /// every open subscription: one that stays open is handed all of them,
    /// each once; one whose receiver is gone is handed a first part of them
    /// and closes; a closed one stays closed and is handed nothing. When
    /// nothing is published, no subscription closes.
    pub open spec fn hands(old: Self, new: Self, published: Seq<AppStateView>) -> bool {
        &&& new.subscriptions() == old.subscriptions()
        &&& forall|i: nat|
            #[trigger] new.is_open(i) ==> old.is_open(i) && new.handed(i) == old.handed(i)
                + published
        &&& forall|i: nat|
            !old.is_open(i) ==> !new.is_open(i) && #[trigger] new.handed(i) == old.handed(i)
        &&& forall|i: nat|
            old.is_open(i) && !new.is_open(i) ==> #[trigger] got_first_part(
                old.handed(i),
                new.handed(i),
                published,
            )
        &&& published.len() == 0 ==> forall|i: nat| #[trigger] new.is_open(i) == old.is_open(i)
    }

    /// A store whose subscriptions did not change has handed nothing.
    proof fn lemma_nothing_handed(a: Self, b: Self)
        requires
            a.subscribers@ == b.subscribers@,
            a.made == b.made,
            a.sent == b.sent,
        ensures
            Self::hands(a, b, Seq::<AppStateView>::empty()),
    {
        assert forall|i: nat| #[trigger] b.is_open(i) implies a.is_open(i) && b.handed(i) == a.handed(
            i,
        ) + Seq::<AppStateView>::empty() by {
            assert(a.handed(i) + Seq::<AppStateView>::empty() =~= a.handed(i));
        }
    }

    /// Handing states in two steps hands them all, in order.
    pub proof fn lemma_hands_compose(
        a: Self,
        b: Self,
        c: Self,
        x: Seq<AppStateView>,
        y: Seq<AppStateView>,
    )
        requires
            Self::hands(a, b, x),
            Self::hands(b, c, y),
        ensures
            Self::hands(a, c, x + y),
    {
        assert forall|i: nat| #[trigger] c.is_open(i) implies a.is_open(i) && c.handed(i) == a.handed(
            i,
        ) + (x + y) by {
            assert(b.is_open(i));
            assert(a.handed(i) + x + y =~= a.handed(i) + (x + y));
        }
        assert forall|i: nat| !a.is_open(i) implies !c.is_open(i) && #[trigger] c.handed(i)
            == a.handed(i) by {
            assert(!b.is_open(i));
            assert(b.handed(i) == a.handed(i));
        }
        assert forall|i: nat| a.is_open(i) && !c.is_open(i) implies #[trigger] got_first_part(
            a.handed(i),
            c.handed(i),
            x + y,
        ) by {
            if b.is_open(i) {
                assert(b.handed(i) == a.handed(i) + x);
                assert(got_first_part(b.handed(i), c.handed(i), y));
                let q = choose|q: int| 0 <= q <= y.len() && c.handed(i) == b.handed(i) + y.subrange(0, q);
                assert((x + y).subrange(0, x.len() + q) =~= x + y.subrange(0, q));
                assert(c.handed(i) =~= a.handed(i) + (x + y).subrange(0, x.len() + q));
            } else {
                assert(got_first_part(a.handed(i), b.handed(i), x));
                let q = choose|q: int| 0 <= q <= x.len() && b.handed(i) == a.handed(i) + x.subrange(0, q);
                assert(c.handed(i) == b.handed(i));
                assert((x + y).subrange(0, q) =~= x.subrange(0, q));
                assert(c.handed(i) =~= a.handed(i) + (x + y).subrange(0, q));
            }
        }
    }

    /// A store in the initial state, with no subscribers.
    pub fn new(service: AppService<R>) -> (r: Self)
        ensures
            r@ == initial_state(),
            r.service_spec() == service,
            r.subscriptions() == 0,
            forall|i: nat| !(#[trigger] r.is_open(i)),
    {
        AppStateStore {
            service,
            state: AppState::new(),
            subscribers: Vec::new(),
            made: Ghost(0),
            sent: Ghost(|i: nat| Seq::<AppStateView>::empty()),
        }
    }

    /// A copy of the current state.
    pub fn current_state(&self) -> (r: Result<AppState, ApplicationError>)
        ensures
            r matches Ok(s) && s@ == self@,
    {
        Ok(self.state.duplicate())
    }

    /// A new subscription; every later change of state is sent to it.
    pub fn subscribe(&mut self) -> (r: Result<Receiver<AppState>, ApplicationError>)
        ensures
            r is Ok,
            final(self)@ == old(self)@,
            final(self).service_spec() == old(self).service_spec(),
            final(self).subscriptions() == old(self).subscriptions() + 1,
            final(self).is_open(old(self).subscriptions()),
            final(self).handed(old(self).subscriptions()) == Seq::<AppStateView>::empty(),
            forall|i: nat|
                i != old(self).subscriptions() ==> #[trigger] final(self).handed(i) == old(
                    self,
                ).handed(i) && final(self).is_open(i) == old(self).is_open(i),
    {
        let (sender, receiver) = open_channel();
        let ghost k: nat = self.made@;
        let ghost before = self.sent@;
        let ghost kept = self.subscribers@;
        self.subscribers.push((sender, Ghost(k)));
        self.made = Ghost(k + 1);
        self.sent = Ghost(|i: nat| if i == k { Seq::<AppStateView>::empty() } else { before(i) });
        proof {
            assert(self.subscribers@[kept.len() as int].1@ == k);
            assert forall|i: nat| i != k implies #[trigger] self.is_open(i) == old(self).is_open(i) by {
                if old(self).is_open(i) {
                    let j = choose|j: int| 0 <= j < kept.len() && (#[trigger] kept[j]).1@ == i;
                    assert(self.subscribers@[j] == kept[j]);
                }
                if self.is_open(i) {
                    let j = choose|j: int| 0 <= j < self.subscribers@.len() && (#[trigger] self.subscribers@[j]).1@ == i;
                    assert(j < kept.len());
                    assert(kept[j] == self.subscribers@[j]);
                }
            }
        }
        Ok(receiver)
    }

    /// Applies an action; a refused action is reported in the state. A
    /// changed state is handed to every open subscription; an unchanged one to
    /// none.
    pub fn dispatch(&mut self, action: AppAction) -> (r: Result<CommandResult, ApplicationError>)
        ensures
            final(self)@ == dispatch_outcome(old(self)@, action@).0,
            final(self).service_spec() == old(self).service_spec(),
            Self::hands(*old(self), *final(self), change(old(self)@, final(self)@)),
            match r {
                Ok(res) => dispatch_outcome(old(self)@, action@).1 == Ok::<
                    Seq<char>,
                    ApplicationErrorView,
                >(res.message@) && res.state@ == final(self)@,
                Err(e) => dispatch_outcome(old(self)@, action@).1 == Err::<
                    Seq<char>,
                    ApplicationErrorView,
                >(e@),
            },
    {
        self.reduce(action)
    }

    /// Records a failure that happened outside the reducer in the state.
    pub fn report_error(&mut self, error: &ApplicationError)
        ensures
            final(self)@ == after_event(old(self)@, failure_event(error@)),
            final(self).service_spec() == old(self).service_spec(),
            Self::hands(*old(self), *final(self), change(old(self)@, final(self)@)),
    {
        let message = error.to_string();
        let kind = error.kind();
        self.publish_event(AppEvent::ActionFailed { message, kind });
    }

    pub fn service(&self) -> (r: &AppService<R>)
        ensures
            *r == self.service_spec(),
    {
        &self.service
    }

    /// Submits the current input: marks the state busy, hands the input to
    /// the submission service, and records success or failure.
    pub fn submit(&mut self) -> (r: Result<CommandResult, ApplicationError>)
        ensures
            ({
                let started = after_event(old(self)@, AppEventView::SubmissionStarted);
                match r {
                    Ok(res) => submission_accepts(old(self)@.input) && final(self)@ == after_event(
                        started,
                        AppEventView::SubmissionSucceeded,
                    ) && res.message@ == "Befehl ausgeführt"@ && res.state@ == final(self)@,
                    Err(e) => final(self)@ == after_event(
                        started,
                        AppEventView::SubmissionFailed { message: e@.message(), kind: e@.kind() },
                    ) && (!submission_accepts(old(self)@.input) ==> e@
                        == ApplicationErrorView::Domain(crate::domain::DomainError::EmptyValue))
                        && (submission_accepts(old(self)@.input) ==> is_storage_failure(e@)),
                }
            }),
            submission_accepts(old(self)@.input) && old(
                self,
            ).service_spec().repository().submissions_never_fail() ==> r is Ok,
            final(self).service_spec().repository().submissions_never_fail() == old(
                self,
            ).service_spec().repository().submissions_never_fail(),
            ({
                let started = after_event(old(self)@, AppEventView::SubmissionStarted);
                Self::hands(
                    *old(self),
                    *final(self),
                    change(old(self)@, started) + change(started, final(self)@),
                )
            }),
            r is Ok ==> stores_submission(
                old(self).service_spec().repository(),
                final(self).service_spec().repository(),
                old(self)@.input,
            ),
    {
        let ghost s0 = *self;
        let input = self.state.input.clone();
        self.publish_event(AppEvent::SubmissionStarted);
        let ghost s1 = *self;
        let result = self.service.submit(SubmissionPayload { value: input });
        let ghost s2 = *self;
        proof {
            Self::lemma_nothing_handed(s1, s2);
            Self::lemma_hands_compose(s0, s1, s2, change(s0@, s1@), Seq::<AppStateView>::empty());
            assert(change(s0@, s1@) + Seq::<AppStateView>::empty() =~= change(s0@, s1@));
        }
        match result {
            Ok(()) => {
                let message = self.publish_event(AppEvent::SubmissionSucceeded);
                proof {
                    Self::lemma_hands_compose(s0, s2, *self, change(s0@, s1@), change(s2@, self@));
                }
                Ok(CommandResult { message, state: self.state.duplicate() })
            },
            Err(error) => {
                let message = error.to_string();
                let kind = error.kind();
                self.publish_event(AppEvent::SubmissionFailed { message, kind });
                proof {
                    Self::lemma_hands_compose(s0, s2, *self, change(s0@, s1@), change(s2@, self@));
                }
                Err(error)
            },
        }
    }

    fn reduce(&mut self, action: AppAction) -> (r: Result<CommandResult, ApplicationError>)
        ensures
            final(self)@ == dispatch_outcome(old(self)@, action@).0,
            final(self).service_spec() == old(self).service_spec(),
            Self::hands(*old(self), *final(self), change(old(self)@, final(self)@)),
            match r {
                Ok(res) => dispatch_outcome(old(self)@, action@).1 == Ok::<
                    Seq<char>,
                    ApplicationErrorView,
                >(res.message@) && res.state@ == final(self)@,
                Err(e) => dispatch_outcome(old(self)@, action@).1 == Err::<
                    Seq<char>,
                    ApplicationErrorView,
                >(e@),
            },
    {
        let mut next = self.state.duplicate();
        match AppReducer::apply(&mut next, &action) {
            Ok(message) => {
                self.update(next);
                Ok(CommandResult { message, state: self.state.duplicate() })
            },
            Err(error) => {
                let message = error.to_string();
                let kind = error.kind();
                self.publish_event(AppEvent::ActionFailed { message, kind });
                Err(error)
            },
        }
    }

    fn publish_event(&mut self, event: AppEvent) -> (r: String)
        ensures
            final(self)@ == after_event(old(self)@, event@),
            r@ == apply_event_spec(old(self)@, event@).1,
            final(self).service_spec() == old(self).service_spec(),
            Self::hands(*old(self), *final(self), change(old(self)@, final(self)@)),
    {
        let mut next = self.state.duplicate();
        let message = AppReducer::apply_event(&mut next, &event);
        self.update(next);
        message
    }

    /// Makes `next` the current state if it differs, under the next
    /// revision, and hands it to the sender of every open subscription; a
    /// sender whose receiving end is gone is dropped.
    fn update(&mut self, next: AppState)
        ensures
            final(self)@ == commit(old(self)@, next@),
            final(self).service_spec() == old(self).service_spec(),
            Self::hands(*old(self), *final(self), change(old(self)@, final(self)@)),
    {
        if next.same_as(&self.state) {
            proof {
                Self::lemma_nothing_handed(*self, *self);
            }
            return;
        }
        let mut next = next;
        next.revision = if self.state.revision == u64::MAX {
            0
        } else {
            self.state.revision + 1
        };
        self.state = next;
        let ghost committed = self.state@;
        let ghost original = self.sent@;
        let ghost service = self.service;
        let ghost made = self.made;
        let mut pending: Vec<(Sender<AppState>, Ghost<nat>)> = Vec::new();
        std::mem::swap(&mut pending, &mut self.subscribers);
        let ghost all = pending@;
        let mut kept: Vec<(Sender<AppState>, Ghost<nat>)> = Vec::new();
        let ghost mut done: int = 0;
        while pending.len() > 0
            invariant
                0 <= done <= all.len(),
                pending@ == all.subrange(done, all.len() as int),
                self.state@ == committed,
                self.service == service,
                self.made == made,
                forall|i: nat|
                    #[trigger] (self.sent@)(i) == if holds(all.subrange(0, done), i) {
                        original(i).push(committed)
                    } else {
                        original(i)
                    },
                forall|i: nat| #[trigger] holds(kept@, i) ==> holds(all.subrange(0, done), i),
            decreases pending@.len(),
        {
            let ghost at: nat = pending@[0].1@;
            let ghost before = self.sent@;
            let (sender, id) = pending.remove(0);
            let delivered = deliver(&sender, self.state.duplicate());
            self.sent = Ghost(|i: nat| if i == at { original(i).push(committed) } else { before(i) });
            let ghost kept_before = kept@;
            if delivered {
                kept.push((sender, id));
            }
            proof {
                assert(all[done] == (sender, id));
                lemma_holds_extend(all, done, at);
                assert forall|i: nat| #[trigger] holds(kept@, i) implies holds(
                    all.subrange(0, done + 1),
                    i,
                ) by {
                    if holds(kept_before, i) {
                        lemma_holds_grow(all, done, i);
                    } else {
                        let m = choose|m: int| 0 <= m < kept@.len() && (#[trigger] kept@[m]).1@ == i;
                        assert(m == kept_before.len());
                    }
                }
                assert(forall|m: int| 0 <= m < kept_before.len() ==> kept@[m] == kept_before[m]);
                done = done + 1;
                assert(pending@ =~= all.subrange(done, all.len() as int));
            }
        }
        self.subscribers = kept;
        proof {
            assert(all.subrange(0, done) =~= all);
            let published = change(old(self)@, self@);
            assert(published =~= seq![committed]);
            assert forall|i: nat| #[trigger] self.is_open(i) implies old(self).is_open(i)
                && self.handed(i) == old(self).handed(i) + published by {
                assert(holds(self.subscribers@, i));
                assert(original(i).push(committed) =~= original(i) + seq![committed]);
            }
            assert forall|i: nat| !old(self).is_open(i) implies !self.is_open(i)
                && #[trigger] self.handed(i) == old(self).handed(i) by {
                assert(!holds(all, i));
            }
            assert forall|i: nat| old(self).is_open(i) && !self.is_open(i) implies #[trigger] got_first_part(
                old(self).handed(i),
                self.handed(i),
                published,
            ) by {
                assert(holds(all, i));
                assert(self.handed(i) =~= old(self).handed(i) + published.subrange(0, 1));
            }
        }
    }
}

/// Whether `after` is `before` followed by a first part of `published`.
pub open spec fn got_first_part(
    before: Seq<AppStateView>,
    after: Seq<AppStateView>,
    published: Seq<AppStateView>,
) -> bool {
    exists|p: int| 0 <= p <= published.len() && after == before + published.subrange(0, p)
}

/// Whether one of `subs` belongs to subscription `i`.
pub open spec fn holds(subs: Seq<(Sender<AppState>, Ghost<nat>)>, i: nat) -> bool {
    exists|k: int| 0 <= k < subs.len() && (#[trigger] subs[k]).1@ == i
}

/// The first `d + 1` senders hold what the first `d` hold and the next.
proof fn lemma_holds_extend(all: Seq<(Sender<AppState>, Ghost<nat>)>, d: int, at: nat)
    requires
        0 <= d < all.len(),
        all[d].1@ == at,
    ensures
        forall|i: nat|
            #[trigger] holds(all.subrange(0, d + 1), i) == (holds(all.subrange(0, d), i) || i == at),
{
    assert forall|i: nat| #[trigger] holds(all.subrange(0, d + 1), i) == (holds(
        all.subrange(0, d),
        i,
    ) || i == at) by {
        if holds(all.subrange(0, d + 1), i) {
            let k = choose|k: int| 0 <= k < d + 1 && (#[trigger] all.subrange(0, d + 1)[k]).1@ == i;
            if k < d {
                assert(all.subrange(0, d)[k] == all.subrange(0, d + 1)[k]);
            }
        }
        if holds(all.subrange(0, d), i) {
            let k = choose|k: int| 0 <= k < d && (#[trigger] all.subrange(0, d)[k]).1@ == i;
            assert(all.subrange(0, d + 1)[k] == all.subrange(0, d)[k]);
        }
        if i == at {
            assert(all.subrange(0, d + 1)[d] == all[d]);
        }
    }
}

/// What the first `d` senders hold, the first `d + 1` hold too.
proof fn lemma_holds_grow(all: Seq<(Sender<AppState>, Ghost<nat>)>, d: int, i: nat)
    requires
        0 <= d < all.len(),
        holds(all.subrange(0, d), i),
    ensures
        holds(all.subrange(0, d + 1), i),
{
    let k = choose|k: int| 0 <= k < d && (#[trigger] all.subrange(0, d)[k]).1@ == i;
    assert(all.subrange(0, d + 1)[k] == all.subrange(0, d)[k]);
}

} // verus!
