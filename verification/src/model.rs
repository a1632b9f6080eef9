//! What the storage services achieve on a log-structured store that keeps
//! its word.
//!
//! The store modelled here files records under 64-bit keys. Appending takes
//! space; invalidating a record makes it invisible without giving its space
//! back; reclaiming gives back the space of every invalidated record. The
//! laws below run a service's moves against this store and say what the
//! client is told and what the store holds afterwards.

use vstd::prelude::*;
use crate::eeprom::{
    ServiceAction, ServiceConfig, ServiceModel, StorageRequest, StorageResponse,
};
use crate::engine::{EngineResult, ErrorCode, SuccessCode};

verus! {

/// A log-structured store of bounded size.
pub struct Store {
    /// The valid records.
    pub live: Map<u64, Seq<u8>>,
    /// The space that the valid records take.
    pub live_bytes: int,
    /// The space that invalidated records still take.
    pub stale_bytes: int,
    /// The space that a record takes beyond its value.
    pub overhead: int,
    /// The space there is.
    pub capacity: int,
}

impl Store {
    /// The space that a record with this value takes.
    pub open spec fn footprint(self, value: Seq<u8>) -> int {
        value.len() + self.overhead
    }

    /// The space that the valid records other than the one under `key`
    /// take.
    pub open spec fn others(self, key: u64) -> int {
        if self.live.contains_key(key) {
            self.live_bytes - self.footprint(self.live[key])
        } else {
            self.live_bytes
        }
    }

    /// Whether a record with this value fits beside the valid records other
    /// than the one under `key`.
    pub open spec fn fits(self, key: u64, value: Seq<u8>) -> bool {
        self.others(key) + self.footprint(value) <= self.capacity
    }

    /// The store after the record under `key`, which it holds, was
    /// invalidated.
    pub open spec fn invalidated(self, key: u64) -> Store {
        Store {
            live: self.live.remove(key),
            live_bytes: self.live_bytes - self.footprint(self.live[key]),
            stale_bytes: self.stale_bytes + self.footprint(self.live[key]),
            ..self
        }
    }

    /// The store after a record was appended.
    pub open spec fn appended(self, key: u64, value: Seq<u8>) -> Store {
        Store {
            live: self.live.insert(key, value),
            live_bytes: self.live_bytes + self.footprint(value),
            ..self
        }
    }

    /// The store after reclamation.
    pub open spec fn reclaimed(self) -> Store {
        Store { stale_bytes: 0, ..self }
    }

    /// What the store does on a command and what it answers: the next
    /// store, the result, and the bytes found by a lookup.
    ///
    /// A lookup finds the valid record, reports that its value needs more
    /// room than was offered, or reports that there is none. An invalidation
    /// hides the valid record or reports that there is none. An append is
    /// refused when a valid record has the key or when the space is used up.
    pub open spec fn apply(self, command: ServiceAction<Seq<u8>>) -> (
        Store,
        EngineResult,
        Seq<u8>,
    ) {
        match command {
            ServiceAction::Get(key, room) => if !self.live.contains_key(key) {
                (self, Err(ErrorCode::KeyNotFound), Seq::empty())
            } else if self.live[key].len() > room {
                (
                    self,
                    Err(ErrorCode::BufferTooSmall(self.live[key].len() as usize)),
                    self.live[key].take(room as int),
                )
            } else {
                (self, Ok(SuccessCode::Complete), self.live[key])
            },
            ServiceAction::Invalidate(key) => if self.live.contains_key(key) {
                (self.invalidated(key), Ok(SuccessCode::Queued), Seq::empty())
            } else {
                (self, Err(ErrorCode::KeyNotFound), Seq::empty())
            },
            ServiceAction::GarbageCollect => (
                self.reclaimed(),
                Ok(SuccessCode::Complete),
                Seq::empty(),
            ),
            ServiceAction::Append(key, value) => if self.live.contains_key(key) {
                (self, Err(ErrorCode::KeyAlreadyExists), Seq::empty())
            } else if self.live_bytes + self.stale_bytes + self.footprint(value)
                > self.capacity {
                (self, Err(ErrorCode::FlashFull), Seq::empty())
            } else {
                (self.appended(key, value), Ok(SuccessCode::Queued), Seq::empty())
            },
            _ => (self, Err(ErrorCode::CorruptData), Seq::empty()),
        }
    }
}

/// Whether an action is a command for the engine.
pub open spec fn is_command(action: ServiceAction<Seq<u8>>) -> bool {
    action is Get || action is Invalidate || action is GarbageCollect || action is Append
}

/// Runs the service against the store for at most `fuel` commands, starting
/// with `action`: the store, the service's state and the action that are
/// left.
pub open spec fn run(
    config: ServiceConfig,
    store: Store,
    state: ServiceModel,
    action: ServiceAction<Seq<u8>>,
    fuel: nat,
) -> (Store, ServiceModel, ServiceAction<Seq<u8>>)
    decreases fuel,
{
    if fuel == 0 || !is_command(action) {
        (store, state, action)
    } else {
        let (next, result, value) = store.apply(action);
        let (state, action) = config.resume(state, result, value);
        run(config, next, state, action, (fuel - 1) as nat)
    }
}

/// The most commands that one request issues.
pub open spec fn request_fuel() -> nat {
    3
}

/// The most commands that the boot-time check issues.
pub open spec fn boot_fuel() -> nat {
    5
}

/// Serves one request on the store: the store afterwards and the
/// service's last action.
pub open spec fn serve(config: ServiceConfig, store: Store, request: StorageRequest<Seq<u8>>) -> (
    Store,
    ServiceAction<Seq<u8>>,
) {
    let (state, action) = config.begin(request);
    let end = run(config, store, state, action, request_fuel());
    (end.0, end.2)
}

/// Runs the boot-time check on the store: the store afterwards and the
/// service's last action.
pub open spec fn boot(config: ServiceConfig, store: Store) -> (Store, ServiceAction<Seq<u8>>) {
    let (state, action) = config.begin_initialize();
    let end = run(config, store, state, action, boot_fuel());
    (end.0, end.2)
}

/// Serves the requests one after the other, in the order of the sequence:
/// the store afterwards.
pub open spec fn serve_all(
    config: ServiceConfig,
    store: Store,
    requests: Seq<StorageRequest<Seq<u8>>>,
) -> Store
    decreases requests.len(),
{
    if requests.len() == 0 {
        store
    } else {
        serve(config, serve_all(config, store, requests.drop_last()), requests.last()).0
    }
}

/// The answer to a read.
pub open spec fn read(config: ServiceConfig, store: Store) -> ServiceAction<Seq<u8>> {
    serve(config, store, StorageRequest::Read).1
}

/// A write of a value that respects the type's bound and fits in the store
/// succeeds, leaves the value under the service's data key, and leaves no
/// invalidated record behind.
pub proof fn lemma_write(config: ServiceConfig, store: Store, value: Seq<u8>)
    requires
        value.len() <= config.max_size,
        store.fits(config.data_key(), value),
    ensures
        ({
            let (after, action) = serve(config, store, StorageRequest::Write(value));
            &&& action == ServiceAction::Respond(StorageResponse::<Seq<u8>>::Write(Ok(())))
            &&& after.live == store.live.insert(config.data_key(), value)
            &&& after.others(config.data_key()) == store.others(config.data_key())
            &&& after.stale_bytes == 0
            &&& after.capacity == store.capacity
            &&& after.overhead == store.overhead
        }),
{
    reveal_with_fuel(run, 4);
    let key = config.data_key();
    let (after, action) = serve(config, store, StorageRequest::Write(value));
    if store.live.contains_key(key) {
        assert(store.live.remove(key).insert(key, value) =~= store.live.insert(key, value));
    }
    assert(after.live =~= store.live.insert(key, value));
}

/// After a write of a value that respects the type's bound and
/// fits in the store, a read returns that value.
pub proof fn lemma_round_trip(config: ServiceConfig, store: Store, value: Seq<u8>)
    requires
        value.len() <= config.max_size,
        store.fits(config.data_key(), value),
    ensures
        ({
            let (after, action) = serve(config, store, StorageRequest::Write(value));
            &&& action == ServiceAction::Respond(StorageResponse::<Seq<u8>>::Write(Ok(())))
            &&& read(config, after) == ServiceAction::Respond(
                StorageResponse::Read(Ok(value)),
            )
        }),
{
    lemma_write(config, store, value);
    reveal_with_fuel(run, 4);
}

/// A write of more bytes than the type's bound fails and leaves the store
/// as it was.
pub proof fn lemma_oversized_write(config: ServiceConfig, store: Store, value: Seq<u8>)
    requires
        value.len() > config.max_size,
    ensures
        serve(config, store, StorageRequest::Write(value)) == (
            store,
            ServiceAction::Respond(StorageResponse::<Seq<u8>>::Write(Err(()))),
        ),
{
    reveal_with_fuel(run, 4);
}

/// A delete succeeds whether or not a value is stored,
/// and a read after it fails.
pub proof fn lemma_delete(config: ServiceConfig, store: Store)
    ensures
        ({
            let (after, action) = serve(config, store, StorageRequest::Delete);
            &&& action == ServiceAction::Respond(StorageResponse::<Seq<u8>>::Delete(Ok(())))
            &&& !after.live.contains_key(config.data_key())
            &&& read(config, after) == ServiceAction::Respond(
                StorageResponse::<Seq<u8>>::Read(Err(())),
            )
        }),
{
    reveal_with_fuel(run, 4);
}

/// A read returns the stored value when there is one within the type's
/// bound and fails otherwise, and it changes nothing.
pub proof fn lemma_read(config: ServiceConfig, store: Store)
    ensures
        serve(config, store, StorageRequest::Read).0 == store,
        read(config, store) == if store.live.contains_key(config.data_key())
            && store.live[config.data_key()].len() <= config.max_size {
            ServiceAction::Respond(StorageResponse::Read(Ok(store.live[config.data_key()])))
        } else {
            ServiceAction::Respond(StorageResponse::<Seq<u8>>::Read(Err(())))
        },
{
    reveal_with_fuel(run, 4);
}

/// Whether the store holds the fingerprint that the service was built
/// with.
pub open spec fn fingerprint_current(config: ServiceConfig, store: Store) -> bool {
    store.live.contains_key(config.metadata_key()) && store.live[config.metadata_key()]
        == config.fingerprint
}

/// The boot-time check leaves a store alone that holds the current
/// fingerprint.
pub proof fn lemma_fingerprint_kept(config: ServiceConfig, store: Store)
    requires
        config.valid(),
        fingerprint_current(config, store),
    ensures
        boot(config, store) == (store, ServiceAction::<Seq<u8>>::Initialized),
{
    reveal_with_fuel(run, 6);
}

/// The store after the records under both keys of the service were
/// invalidated, as far as it held them, and space was reclaimed.
pub open spec fn wiped(config: ServiceConfig, store: Store) -> Store {
    let first = store.apply(ServiceAction::Invalidate(config.data_key())).0;
    first.apply(ServiceAction::Invalidate(config.metadata_key())).0.reclaimed()
}

/// Where the stored fingerprint is missing or differs
/// from the current one, the boot-time check removes the value, installs
/// the current fingerprint, and a read then reports that nothing is stored.
/// The two keys of the service must differ, and the fingerprint must fit in
/// the store once both records are gone.
pub proof fn lemma_fingerprint_reset(config: ServiceConfig, store: Store)
    requires
        !fingerprint_current(config, store),
        config.data_key() != config.metadata_key(),
        wiped(config, store).live_bytes + store.footprint(config.fingerprint) <= store.capacity,
    ensures
        ({
            let (after, action) = boot(config, store);
            &&& action == ServiceAction::<Seq<u8>>::Initialized
            &&& !after.live.contains_key(config.data_key())
            &&& fingerprint_current(config, after)
            &&& read(config, after) == ServiceAction::Respond(
                StorageResponse::<Seq<u8>>::Read(Err(())),
            )
        }),
{
    reveal_with_fuel(run, 6);
}

/// Runs the writes of `values` one after the other: whether every one of
/// them was answered with a success.
pub open spec fn all_written(config: ServiceConfig, store: Store, values: Seq<Seq<u8>>) -> bool
    decreases values.len(),
{
    if values.len() == 0 {
        true
    } else {
        let before = serve_all(config, store, writes(values.drop_last()));
        &&& all_written(config, store, values.drop_last())
        &&& serve(config, before, StorageRequest::Write(values.last())).1
            == ServiceAction::Respond(StorageResponse::<Seq<u8>>::Write(Ok(())))
    }
}

/// The requests that write `values` in order.
pub open spec fn writes(values: Seq<Seq<u8>>) -> Seq<StorageRequest<Seq<u8>>> {
    Seq::new(values.len(), |i: int| StorageRequest::Write(values[i]))
}

/// However many values are written to one service in
/// succession, every write succeeds as long as each value alone fits beside
/// the records of the other keys; and a read then returns the value
/// written last.
pub proof fn lemma_repeated_writes(config: ServiceConfig, store: Store, values: Seq<Seq<u8>>)
    requires
        forall|i: int|
            0 <= i < values.len() ==> (#[trigger] values[i]).len() <= config.max_size
                && store.fits(config.data_key(), values[i]),
    ensures
        all_written(config, store, values),
        ({
            let after = serve_all(config, store, writes(values));
            &&& after.others(config.data_key()) == store.others(config.data_key())
            &&& after.capacity == store.capacity
            &&& after.overhead == store.overhead
            &&& values.len() > 0 ==> read(config, after) == ServiceAction::Respond(
                StorageResponse::Read(Ok(values.last())),
            )
        }),
    decreases values.len(),
{
    if values.len() > 0 {
        let earlier = values.drop_last();
        lemma_repeated_writes(config, store, earlier);
        assert(writes(values).drop_last() =~= writes(earlier));
        assert(writes(values).last() == StorageRequest::Write(values.last()));
        let before = serve_all(config, store, writes(earlier));
        assert(before.fits(config.data_key(), values.last()));
        lemma_round_trip(config, before, values.last());
        lemma_write(config, before, values.last());
    }
}

/// Of two writes served in the order in which they were
/// submitted, the second one's value is the one that a read returns.
pub proof fn lemma_writes_in_order(
    config: ServiceConfig,
    store: Store,
    first: Seq<u8>,
    second: Seq<u8>,
)
    requires
        first.len() <= config.max_size,
        second.len() <= config.max_size,
        store.fits(config.data_key(), first),
        store.fits(config.data_key(), second),
    ensures
        read(
            config,
            serve_all(
                config,
                store,
                seq![StorageRequest::Write(first), StorageRequest::Write(second)],
            ),
        ) == ServiceAction::Respond(StorageResponse::Read(Ok(second))),
{
    let values = seq![first, second];
    lemma_repeated_writes(config, store, values);
    assert(writes(values) =~= seq![StorageRequest::Write(first), StorageRequest::Write(second)]);
}

/// Whatever the engine answers, a request is over after three commands at
/// most: the fourth action of the service is an answer for the client or a
/// halt.
pub proof fn lemma_request_is_bounded(
    config: ServiceConfig,
    request: StorageRequest<Seq<u8>>,
    first: (EngineResult, Seq<u8>),
    second: (EngineResult, Seq<u8>),
    third: (EngineResult, Seq<u8>),
)
    ensures
        ({
            let (s0, a0) = config.begin(request);
            let (s1, a1) = config.resume(s0, first.0, first.1);
            let (s2, a2) = config.resume(s1, second.0, second.1);
            let (s3, a3) = config.resume(s2, third.0, third.1);
            is_command(a0) && is_command(a1) && is_command(a2) ==> a3 is Respond || a3 is Halt
        }),
{
}

/// Whatever the engine answers, the boot-time check is over after five
/// commands at most.
pub proof fn lemma_boot_is_bounded(
    config: ServiceConfig,
    answers: Seq<(EngineResult, Seq<u8>)>,
)
    requires
        answers.len() == 5,
    ensures
        ({
            let (s0, a0) = config.begin_initialize();
            let (s1, a1) = config.resume(s0, answers[0].0, answers[0].1);
            let (s2, a2) = config.resume(s1, answers[1].0, answers[1].1);
            let (s3, a3) = config.resume(s2, answers[2].0, answers[2].1);
            let (s4, a4) = config.resume(s3, answers[3].0, answers[3].1);
            let (s5, a5) = config.resume(s4, answers[4].0, answers[4].1);
            is_command(a0) && is_command(a1) && is_command(a2) && is_command(a3) && is_command(a4)
                ==> a5 is Initialized || a5 is Halt
        }),
{
}

/// On a store that keeps its word, a request to
/// one service is answered, and so is the request to another service that
/// is served after it.
pub proof fn lemma_requests_complete(
    config: ServiceConfig,
    other: ServiceConfig,
    store: Store,
    request: StorageRequest<Seq<u8>>,
    next: StorageRequest<Seq<u8>>,
)
    ensures
        serve(config, store, request).1 is Respond,
        serve(other, serve(config, store, request).0, next).1 is Respond,
{
    lemma_request_completes(config, store, request);
    lemma_request_completes(other, serve(config, store, request).0, next);
}

/// On a store that keeps its word every request is answered.
pub proof fn lemma_request_completes(
    config: ServiceConfig,
    store: Store,
    request: StorageRequest<Seq<u8>>,
)
    ensures
        serve(config, store, request).1 is Respond,
{
    reveal_with_fuel(run, 4);
}

/// A request to one service leaves the value of a service with another
/// data key as it was.
pub proof fn lemma_services_apart(
    config: ServiceConfig,
    other: ServiceConfig,
    store: Store,
    request: StorageRequest<Seq<u8>>,
)
    requires
        config.data_key() != other.data_key(),
    ensures
        read(other, serve(config, store, request).0) == read(other, store),
{
    reveal_with_fuel(run, 4);
}

} // verus!
