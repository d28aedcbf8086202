use vstd::prelude::*;
use crate::codec::{base64_text_of, encode_base64};
use crate::error::{FetchError, ResolveError, TransformError};
use crate::flight::Role;
use crate::query::cache_key;

verus! {

/// Where one `resolve` of a key stands.
pub enum Stage {
    /// Waiting for the cache backend's answer.
    LookingUp,
    /// Waiting to learn whether it leads or follows the key's computation.
    Joining,
    /// Following: waiting for the leader's outcome.
    Awaiting,
    /// Leading: waiting for the origin's bytes.
    Fetching,
    /// Leading: waiting for the decrypt capability.
    Decrypting,
    /// Leading: waiting for the cache write of this payload.
    Storing(String),
    /// The outcome has been given.
    Done,
}

/// What the host reports back after performing an action.
pub enum Event {
    /// The cache holds this payload for the key.
    CacheHit(String),
    /// The cache holds nothing for the key.
    CacheMiss,
    /// The cache backend could not be asked.
    CacheUnavailable,
    /// The registry gave this role for the key.
    Joined(Role),
    /// The leader's outcome, as handed to a follower.
    Published(Result<String, ResolveError>),
    /// The origin answered with these bytes.
    Fetched(Vec<u8>),
    /// The origin fetch failed.
    FetchFailed(FetchError),
    /// The decrypt capability returned this payload.
    Decrypted(String),
    /// The decrypt capability failed.
    DecryptFailed(TransformError),
    /// The cache write succeeded.
    Stored,
    /// The cache write failed.
    StoreFailed,
}

/// What the host is to do next.
pub enum Action {
    /// Ask the cache backend for the key.
    LookUp(String),
    /// Join the single-flight registry for the key.
    Join(String),
    /// Wait for the leader's outcome.
    Await,
    /// Fetch the bytes at this URL.
    Fetch(String),
    /// Run the decrypt capability on this base64 text.
    Decrypt(String),
    /// Write this payload under this key; failure is tolerated.
    Store(String, String),
    /// Complete the key's record in the registry, hand this outcome to every
    /// waiter, and return it.
    Publish(Result<String, ResolveError>),
    /// Return this outcome.
    Finish(Result<String, ResolveError>),
}

/// A stage, its payload seen as text.
pub enum StageView {
    LookingUp,
    Joining,
    Awaiting,
    Fetching,
    Decrypting,
    Storing(Seq<char>),
    Done,
}

/// An event, its payloads seen as text and bytes.
pub enum EventView {
    CacheHit(Seq<char>),
    CacheMiss,
    CacheUnavailable,
    Joined(Role),
    Published(Result<Seq<char>, ResolveError>),
    Fetched(Seq<u8>),
    FetchFailed(FetchError),
    Decrypted(Seq<char>),
    DecryptFailed(TransformError),
    Stored,
    StoreFailed,
}

/// An action, its keys and payloads seen as text.
pub enum ActionView {
    LookUp(Seq<char>),
    Join(Seq<char>),
    Await,
    Fetch(Seq<char>),
    Decrypt(Seq<char>),
    Store(Seq<char>, Seq<char>),
    Publish(Result<Seq<char>, ResolveError>),
    Finish(Result<Seq<char>, ResolveError>),
}

/// An outcome with its payload seen as text.
pub open spec fn outcome_view(o: Result<String, ResolveError>) -> Result<Seq<char>, ResolveError> {
    match o {
        Ok(p) => Ok(p@),
        Err(e) => Err(e),
    }
}

impl View for Stage {
    type V = StageView;

    open spec fn view(&self) -> StageView {
        match self {
            Stage::LookingUp => StageView::LookingUp,
            Stage::Joining => StageView::Joining,
            Stage::Awaiting => StageView::Awaiting,
            Stage::Fetching => StageView::Fetching,
            Stage::Decrypting => StageView::Decrypting,
            Stage::Storing(p) => StageView::Storing(p@),
            Stage::Done => StageView::Done,
        }
    }
}

impl View for Event {
    type V = EventView;

    open spec fn view(&self) -> EventView {
        match self {
            Event::CacheHit(p) => EventView::CacheHit(p@),
            Event::CacheMiss => EventView::CacheMiss,
            Event::CacheUnavailable => EventView::CacheUnavailable,
            Event::Joined(r) => EventView::Joined(*r),
            Event::Published(o) => EventView::Published(outcome_view(*o)),
            Event::Fetched(b) => EventView::Fetched(b@),
            Event::FetchFailed(e) => EventView::FetchFailed(*e),
            Event::Decrypted(p) => EventView::Decrypted(p@),
            Event::DecryptFailed(e) => EventView::DecryptFailed(*e),
            Event::Stored => EventView::Stored,
            Event::StoreFailed => EventView::StoreFailed,
        }
    }
}

impl View for Action {
    type V = ActionView;

    open spec fn view(&self) -> ActionView {
        match self {
            Action::LookUp(k) => ActionView::LookUp(k@),
            Action::Join(k) => ActionView::Join(k@),
            Action::Await => ActionView::Await,
            Action::Fetch(u) => ActionView::Fetch(u@),
            Action::Decrypt(t) => ActionView::Decrypt(t@),
            Action::Store(k, p) => ActionView::Store(k@, p@),
            Action::Publish(o) => ActionView::Publish(outcome_view(*o)),
            Action::Finish(o) => ActionView::Finish(outcome_view(*o)),
        }
    }
}

/// Whether a stage waits for this kind of event.
pub open spec fn accepts(stage: StageView, ev: EventView) -> bool {
    match stage {
        StageView::LookingUp => ev is CacheHit || ev is CacheMiss || ev is CacheUnavailable,
        StageView::Joining => ev is Joined,
        StageView::Awaiting => ev is Published,
        StageView::Fetching => ev is Fetched || ev is FetchFailed,
        StageView::Decrypting => ev is Decrypted || ev is DecryptFailed,
        StageView::Storing(_) => ev is Stored || ev is StoreFailed,
        StageView::Done => false,
    }
}

/// The cache-aside transition for a resolve of `key`: the next stage and the
/// action it asks for.
///
/// A hit answers at once. A miss, or a cache that cannot be asked, leads to
/// the registry. The leader fetches, decrypts the base64 text of the bytes,
/// stores the payload and publishes it whether or not the write succeeded;
/// a failed fetch or decrypt is published as is, with nothing stored. A
/// follower finishes with what the leader published.
pub open spec fn step(stage: StageView, key: Seq<char>, ev: EventView) -> (StageView, ActionView)
    recommends
        accepts(stage, ev),
{
    match (stage, ev) {
        (StageView::LookingUp, EventView::CacheHit(p)) => (
            StageView::Done,
            ActionView::Finish(Ok(p)),
        ),
        (StageView::LookingUp, _) => (StageView::Joining, ActionView::Join(key)),
        (StageView::Joining, EventView::Joined(Role::Leader)) => (
            StageView::Fetching,
            ActionView::Fetch(key),
        ),
        (StageView::Joining, _) => (StageView::Awaiting, ActionView::Await),
        (StageView::Awaiting, EventView::Published(o)) => (StageView::Done, ActionView::Finish(o)),
        (StageView::Fetching, EventView::Fetched(b)) => (
            StageView::Decrypting,
            ActionView::Decrypt(base64_text_of(b)),
        ),
        (StageView::Fetching, EventView::FetchFailed(e)) => (
            StageView::Done,
            ActionView::Publish(Err(ResolveError::Fetch(e))),
        ),
        (StageView::Decrypting, EventView::Decrypted(p)) => (
            StageView::Storing(p),
            ActionView::Store(key, p),
        ),
        (StageView::Decrypting, EventView::DecryptFailed(e)) => (
            StageView::Done,
            ActionView::Publish(Err(ResolveError::Transform(e))),
        ),
        (StageView::Storing(p), _) => (StageView::Done, ActionView::Publish(Ok(p))),
        _ => (stage, ActionView::Await),
    }
}

/// The actions that a resolve of `key` asks for as it takes `evs` in turn
/// from `stage`.
pub open spec fn run(stage: StageView, key: Seq<char>, evs: Seq<EventView>) -> Seq<ActionView>
    decreases evs.len(),
{
    if evs.len() == 0 {
        Seq::empty()
    } else {
        let (next, a) = step(stage, key, evs[0]);
        seq![a] + run(next, key, evs.drop_first())
    }
}

/// Whether every event of `evs` is one that the stage reached then waits for.
pub open spec fn run_accepted(stage: StageView, key: Seq<char>, evs: Seq<EventView>) -> bool
    decreases evs.len(),
{
    evs.len() == 0 || (accepts(stage, evs[0]) && run_accepted(
        step(stage, key, evs[0]).0,
        key,
        evs.drop_first(),
    ))
}

/// The events that a leader sees when the lookup misses, or the cache cannot
/// be asked, and both fetch and decrypt succeed: the cache write then succeeds
/// or not as `stored` says.
pub open spec fn leader_events(lookup: EventView, bytes: Seq<u8>, p: Seq<char>, stored: bool) -> Seq<
    EventView,
> {
    seq![
        lookup,
        EventView::Joined(Role::Leader),
        EventView::Fetched(bytes),
        EventView::Decrypted(p),
        if stored {
            EventView::Stored
        } else {
            EventView::StoreFailed
        },
    ]
}

/// A cache hit short-circuits: the resolve finishes with the cached payload
/// at once, and waits for nothing more, so no fetch or decrypt is asked for.
pub proof fn lemma_hit_short_circuits(key: Seq<char>, p: Seq<char>)
    ensures
        accepts(StageView::LookingUp, EventView::CacheHit(p)),
        step(StageView::LookingUp, key, EventView::CacheHit(p)) == (
            StageView::Done,
            ActionView::Finish(Ok(p)),
        ),
        forall|ev: EventView| !accepts(StageView::Done, ev),
{
}

/// A leader fetches the key's URL, decrypts the base64 text of the fetched
/// bytes, stores the payload under the key and publishes it. A cache that
/// could not be asked counts as a miss, and a failed cache write does not
/// change the published outcome.
pub proof fn lemma_leader_run(
    key: Seq<char>,
    lookup: EventView,
    bytes: Seq<u8>,
    p: Seq<char>,
    stored: bool,
)
    requires
        lookup is CacheMiss || lookup is CacheUnavailable,
    ensures
        run_accepted(StageView::LookingUp, key, leader_events(lookup, bytes, p, stored)),
        run(StageView::LookingUp, key, leader_events(lookup, bytes, p, stored)) == seq![
            ActionView::Join(key),
            ActionView::Fetch(key),
            ActionView::Decrypt(base64_text_of(bytes)),
            ActionView::Store(key, p),
            ActionView::Publish(Ok(p)),
        ],
{
    reveal_with_fuel(run, 6);
    reveal_with_fuel(run_accepted, 6);
    let evs = leader_events(lookup, bytes, p, stored);
    assert(evs.drop_first().drop_first().drop_first().drop_first().drop_first().len() == 0);
    assert(run(StageView::LookingUp, key, evs) =~= seq![
        ActionView::Join(key),
        ActionView::Fetch(key),
        ActionView::Decrypt(base64_text_of(bytes)),
        ActionView::Store(key, p),
        ActionView::Publish(Ok(p)),
    ]);
}

/// A failed origin fetch is published to the waiters as a fetch error, and
/// no payload is stored.
pub proof fn lemma_failed_fetch_not_cached(key: Seq<char>, lookup: EventView, e: FetchError)
    requires
        lookup is CacheMiss || lookup is CacheUnavailable,
    ensures
        run_accepted(
            StageView::LookingUp,
            key,
            seq![lookup, EventView::Joined(Role::Leader), EventView::FetchFailed(e)],
        ),
        run(
            StageView::LookingUp,
            key,
            seq![lookup, EventView::Joined(Role::Leader), EventView::FetchFailed(e)],
        ) == seq![
            ActionView::Join(key),
            ActionView::Fetch(key),
            ActionView::Publish(Err(ResolveError::Fetch(e))),
        ],
{
    reveal_with_fuel(run, 4);
    reveal_with_fuel(run_accepted, 4);
    let evs = seq![lookup, EventView::Joined(Role::Leader), EventView::FetchFailed(e)];
    assert(evs.drop_first().drop_first().drop_first().len() == 0);
    assert(run(StageView::LookingUp, key, evs) =~= seq![
        ActionView::Join(key),
        ActionView::Fetch(key),
        ActionView::Publish(Err(ResolveError::Fetch(e))),
    ]);
}

/// A failed decrypt is published to the waiters as a transform error, and no
/// payload is stored.
pub proof fn lemma_failed_decrypt_not_cached(
    key: Seq<char>,
    lookup: EventView,
    bytes: Seq<u8>,
    e: TransformError,
)
    requires
        lookup is CacheMiss || lookup is CacheUnavailable,
    ensures
        run_accepted(
            StageView::LookingUp,
            key,
            seq![
                lookup,
                EventView::Joined(Role::Leader),
                EventView::Fetched(bytes),
                EventView::DecryptFailed(e),
            ],
        ),
        run(
            StageView::LookingUp,
            key,
            seq![
                lookup,
                EventView::Joined(Role::Leader),
                EventView::Fetched(bytes),
                EventView::DecryptFailed(e),
            ],
        ) == seq![
            ActionView::Join(key),
            ActionView::Fetch(key),
            ActionView::Decrypt(base64_text_of(bytes)),
            ActionView::Publish(Err(ResolveError::Transform(e))),
        ],
{
    reveal_with_fuel(run, 5);
    reveal_with_fuel(run_accepted, 5);
    let evs = seq![
        lookup,
        EventView::Joined(Role::Leader),
        EventView::Fetched(bytes),
        EventView::DecryptFailed(e),
    ];
    assert(evs.drop_first().drop_first().drop_first().drop_first().len() == 0);
    assert(run(StageView::LookingUp, key, evs) =~= seq![
        ActionView::Join(key),
        ActionView::Fetch(key),
        ActionView::Decrypt(base64_text_of(bytes)),
        ActionView::Publish(Err(ResolveError::Transform(e))),
    ]);
}

/// A follower asks for no fetch or decrypt of its own and finishes with
/// exactly the outcome that the leader published, success or failure.
pub proof fn lemma_follower_shares_outcome(
    key: Seq<char>,
    lookup: EventView,
    o: Result<Seq<char>, ResolveError>,
)
    requires
        lookup is CacheMiss || lookup is CacheUnavailable,
    ensures
        run_accepted(
            StageView::LookingUp,
            key,
            seq![lookup, EventView::Joined(Role::Follower), EventView::Published(o)],
        ),
        run(
            StageView::LookingUp,
            key,
            seq![lookup, EventView::Joined(Role::Follower), EventView::Published(o)],
        ) == seq![ActionView::Join(key), ActionView::Await, ActionView::Finish(o)],
{
    reveal_with_fuel(run, 4);
    reveal_with_fuel(run_accepted, 4);
    let evs = seq![lookup, EventView::Joined(Role::Follower), EventView::Published(o)];
    assert(evs.drop_first().drop_first().drop_first().len() == 0);
    assert(run(StageView::LookingUp, key, evs) =~= seq![
        ActionView::Join(key),
        ActionView::Await,
        ActionView::Finish(o),
    ]);
}

/// Two resolves of a key in sequence give the same payload: the first stores
/// what it publishes, and the second, reading the cache that the store
/// filled, finishes with that payload without a fetch or decrypt.
pub proof fn lemma_resolve_idempotent(
    key: Seq<char>,
    lookup: EventView,
    bytes: Seq<u8>,
    p: Seq<char>,
    cache: Map<Seq<char>, Seq<char>>,
)
    requires
        lookup is CacheMiss || lookup is CacheUnavailable,
    ensures
        ({
            let first = run(StageView::LookingUp, key, leader_events(lookup, bytes, p, true));
            let filled = cache.insert(key, p);
            &&& first.contains(ActionView::Store(key, p))
            &&& first.last() == ActionView::Publish(Ok(p))
            &&& run(StageView::LookingUp, key, seq![EventView::CacheHit(filled[key])]) == seq![
                ActionView::Finish(Ok(p)),
            ]
        }),
{
    lemma_leader_run(key, lookup, bytes, p, true);
    let first = run(StageView::LookingUp, key, leader_events(lookup, bytes, p, true));
    assert(first[3] == ActionView::Store(key, p));
    reveal_with_fuel(run, 2);
    let second = seq![EventView::CacheHit(p)];
    assert(second.drop_first().len() == 0);
    assert(run(StageView::LookingUp, key, second) =~= seq![ActionView::Finish(Ok(p))]);
}

/// One `resolve` of a key, driven by the host one event at a time.
pub struct Resolve {
    key: String,
    stage: Stage,
}

impl View for Resolve {
    type V = (Seq<char>, StageView);

    closed spec fn view(&self) -> (Seq<char>, StageView) {
        (self.key@, self.stage@)
    }
}

impl Resolve {
    /// Starts a resolve for the request's `image` parameter.
    ///
    /// A missing or empty key is rejected with a validation error before any
    /// backend, fetch or transform work; otherwise the first action is a cache
    /// lookup of the key.
    pub fn start(image: Option<String>) -> (r: Result<(Resolve, Action), ResolveError>)
        ensures
            match image {
                Some(k) if k@.len() > 0 => r is Ok && r->Ok_0.0@ == (k@, StageView::LookingUp)
                    && r->Ok_0.1@ == ActionView::LookUp(k@),
                _ => r == Err::<(Resolve, Action), ResolveError>(ResolveError::Validation),
            },
    {
        match cache_key(image) {
            Ok(k) => {
                let look = Action::LookUp(k.clone());
                Ok((Resolve { key: k, stage: Stage::LookingUp }, look))
            },
            Err(e) => Err(e),
        }
    }

    /// Whether the current stage waits for this event.
    pub fn expects(&self, ev: &Event) -> (r: bool)
        ensures
            r == accepts(self@.1, ev@),
    {
        match (&self.stage, ev) {
            (Stage::LookingUp, Event::CacheHit(_)) => true,
            (Stage::LookingUp, Event::CacheMiss) => true,
            (Stage::LookingUp, Event::CacheUnavailable) => true,
            (Stage::Joining, Event::Joined(_)) => true,
            (Stage::Awaiting, Event::Published(_)) => true,
            (Stage::Fetching, Event::Fetched(_)) => true,
            (Stage::Fetching, Event::FetchFailed(_)) => true,
            (Stage::Decrypting, Event::Decrypted(_)) => true,
            (Stage::Decrypting, Event::DecryptFailed(_)) => true,
            (Stage::Storing(_), Event::Stored) => true,
            (Stage::Storing(_), Event::StoreFailed) => true,
            _ => false,
        }
    }

    /// Whether the outcome has been given.
    pub fn is_done(&self) -> (r: bool)
        ensures
            r == (self@.1 is Done),
    {
        match self.stage {
            Stage::Done => true,
            _ => false,
        }
    }

    /// Takes the host's report of the last action and gives the next one.
    pub fn on_event(&mut self, ev: Event) -> (r: Action)
        requires
            accepts(old(self)@.1, ev@),
        ensures
            final(self)@.0 == old(self)@.0,
            (final(self)@.1, r@) == step(old(self)@.1, old(self)@.0, ev@),
    {
        match ev {
            Event::CacheHit(p) => {
                self.stage = Stage::Done;
                Action::Finish(Ok(p))
            },
            Event::CacheMiss | Event::CacheUnavailable => {
                self.stage = Stage::Joining;
                Action::Join(self.key.clone())
            },
            Event::Joined(Role::Leader) => {
                self.stage = Stage::Fetching;
                Action::Fetch(self.key.clone())
            },
            Event::Joined(Role::Follower) => {
                self.stage = Stage::Awaiting;
                Action::Await
            },
            Event::Published(o) => {
                self.stage = Stage::Done;
                Action::Finish(o)
            },
            Event::Fetched(b) => {
                self.stage = Stage::Decrypting;
                Action::Decrypt(encode_base64(b.as_slice()))
            },
            Event::FetchFailed(e) => {
                self.stage = Stage::Done;
                Action::Publish(Err(ResolveError::Fetch(e)))
            },
            Event::Decrypted(p) => {
                self.stage = Stage::Storing(p.clone());
                Action::Store(self.key.clone(), p)
            },
            Event::DecryptFailed(e) => {
                self.stage = Stage::Done;
                Action::Publish(Err(ResolveError::Transform(e)))
            },
            Event::Stored | Event::StoreFailed => {
                let out = match &self.stage {
                    Stage::Storing(p) => p.clone(),
                    _ => String::new(),
                };
                self.stage = Stage::Done;
                Action::Publish(Ok(out))
            },
        }
    }
}

} // verus!
