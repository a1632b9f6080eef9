//! Typed configuration records on top of the key-value engine.

use vstd::prelude::*;
use vstd::slice::slice_to_vec;
use crate::engine::{EngineResult, ErrorCode, SuccessCode};

verus! {

/// The 64-bit engine key that hashing gives for the logical key `key`.
pub uninterp spec fn hashed_key(key: Seq<u8>) -> u64;

/// Hashes `key` with `core::hash::SipHasher`: the hasher is created by
/// `SipHasher::new`, which sets both of its keys to zero, is fed the slice
/// through the slice's `Hash` implementation, and is asked for its result by
/// `finish`. Nothing but the slice enters the computation, so in a given
/// build the result is a function of the bytes; the contract gives that
/// function the name `hashed_key` and claims nothing about its values.
#[verifier::external_body]
#[allow(deprecated)]
fn sip_hash(key: &[u8]) -> (hash: u64)
    ensures
        hash == hashed_key(key@),
{
    let mut hasher = core::hash::SipHasher::new();
    core::hash::Hash::hash(key, &mut hasher);
    core::hash::Hasher::finish(&hasher)
}

/// The engine key for the logical key `key`.
pub fn get_hashed_key(key: &[u8]) -> (hash: u64)
    ensures
        hash == hashed_key(key@),
{
    sip_hash(key)
}

/// What a client asks of a storage service.
#[derive(Debug, PartialEq, Eq)]
pub enum StorageRequest<T> {
    /// Fetch the stored value.
    Read,
    /// Store this value in place of the current one.
    Write(T),
    /// Remove the stored value.
    Delete,
}

/// What a storage service answers.
#[derive(Debug, PartialEq, Eq)]
pub enum StorageResponse<T> {
    /// The stored value, or a failure.
    Read(Result<T, ()>),
    /// Whether the value was stored.
    Write(Result<(), ()>),
    /// Whether the value is gone.
    Delete(Result<(), ()>),
}

/// The numbers of the services that keep a record. A number is assigned
/// once: a later service never takes over the number of an earlier one.
#[derive(Debug, Clone, Copy, PartialEq, Eq)]
pub enum StorageKey {
    BacklightConfig,
    UnderglowConfig,
}

impl StorageKey {
    /// The number under which the service's records are filed.
    pub open spec fn number(self) -> u8 {
        match self {
            StorageKey::BacklightConfig => 0,
            StorageKey::UnderglowConfig => 1,
        }
    }

    /// The number under which the service's records are filed.
    pub fn to_u8(self) -> (number: u8)
        ensures
            number == self.number(),
    {
        match self {
            StorageKey::BacklightConfig => 0,
            StorageKey::UnderglowConfig => 1,
        }
    }

    /// The service that owns `number`, if one does.
    pub fn from_u8(number: u8) -> (key: Option<StorageKey>)
        ensures
            key matches Some(k) ==> k.number() == number,
            key is None <==> number >= 2,
    {
        if number == 0 {
            Some(StorageKey::BacklightConfig)
        } else if number == 1 {
            Some(StorageKey::UnderglowConfig)
        } else {
            None
        }
    }
}

/// The two records that a service keeps.
#[derive(Debug, Clone, Copy, PartialEq, Eq)]
pub enum StorageKeyType {
    /// The serialized value.
    Data,
    /// The fingerprint of the value's type.
    Metadata,
}

impl StorageKeyType {
    /// The byte that stands for the record kind in a logical key.
    pub open spec fn code(self) -> u8 {
        match self {
            StorageKeyType::Data => 0,
            StorageKeyType::Metadata => 1,
        }
    }
}

/// The logical key of a record: the service's number, then the record kind.
pub open spec fn key_bytes(service: u8, kind: StorageKeyType) -> Seq<u8> {
    seq![service, kind.code()]
}

/// The engine key of a record.
pub open spec fn record_key(service: u8, kind: StorageKeyType) -> u64 {
    hashed_key(key_bytes(service, kind))
}

/// The engine key of the record of the given kind that the service with the
/// number `service` keeps.
pub fn storage_key(service: u8, kind: StorageKeyType) -> (key: u64)
    ensures
        key == record_key(service, kind),
{
    let code: u8 = match kind {
        StorageKeyType::Data => 0,
        StorageKeyType::Metadata => 1,
    };
    let bytes: [u8; 2] = [service, code];
    assert(bytes@ =~= key_bytes(service, kind));
    get_hashed_key(bytes.as_slice())
}

impl<T: View> View for StorageRequest<T> {
    type V = StorageRequest<T::V>;

    open spec fn view(&self) -> StorageRequest<T::V> {
        match *self {
            StorageRequest::Read => StorageRequest::Read,
            StorageRequest::Write(value) => StorageRequest::Write(value@),
            StorageRequest::Delete => StorageRequest::Delete,
        }
    }
}

impl<T: View> View for StorageResponse<T> {
    type V = StorageResponse<T::V>;

    open spec fn view(&self) -> StorageResponse<T::V> {
        match *self {
            StorageResponse::Read(Ok(value)) => StorageResponse::Read(Ok(value@)),
            StorageResponse::Read(Err(e)) => StorageResponse::Read(Err(e)),
            StorageResponse::Write(outcome) => StorageResponse::Write(outcome),
            StorageResponse::Delete(outcome) => StorageResponse::Delete(outcome),
        }
    }
}

/// What a storage service wants done next. `B` is the form that record
/// bytes take: a vector where the program runs, a sequence in contracts.
#[derive(Debug, PartialEq, Eq)]
pub enum ServiceAction<B> {
    /// Look up the record with this engine key, with room for this many
    /// bytes of value, and report the result.
    Get(u64, usize),
    /// Invalidate the record with this engine key and report the result.
    Invalidate(u64),
    /// Reclaim the space of invalidated records and report the result.
    GarbageCollect,
    /// Append a record with this engine key and these bytes and report the
    /// result.
    Append(u64, B),
    /// The service has checked its stored fingerprint and is ready.
    Initialized,
    /// The request is finished: give the client this answer.
    Respond(StorageResponse<B>),
    /// Storage is in an unknown state: stop.
    Halt,
}

impl<B: View> View for ServiceAction<B> {
    type V = ServiceAction<B::V>;

    open spec fn view(&self) -> ServiceAction<B::V> {
        match *self {
            ServiceAction::Get(key, room) => ServiceAction::Get(key, room),
            ServiceAction::Invalidate(key) => ServiceAction::Invalidate(key),
            ServiceAction::GarbageCollect => ServiceAction::GarbageCollect,
            ServiceAction::Append(key, value) => ServiceAction::Append(key, value@),
            ServiceAction::Initialized => ServiceAction::Initialized,
            ServiceAction::Respond(response) => ServiceAction::Respond(response@),
            ServiceAction::Halt => ServiceAction::Halt,
        }
    }
}

/// The engine command whose result a service is waiting for.
#[derive(Debug, Clone, Copy, PartialEq, Eq)]
pub enum Stage {
    /// No request is in progress.
    Idle,
    /// The lookup of the stored fingerprint.
    CheckMetadata,
    /// The invalidation of the value during a reset.
    ResetData,
    /// The invalidation of the stored fingerprint during a reset.
    ResetMetadata,
    /// The reclamation during a reset.
    ResetReclaim,
    /// The append of the current fingerprint.
    ResetInstall,
    /// The lookup of the value.
    ReadData,
    /// The invalidation of the value that a write replaces.
    WriteInvalidate,
    /// The reclamation before a write's append.
    WriteReclaim,
    /// The append of the new value.
    WriteAppend,
    /// The invalidation of the value that a delete removes.
    DeleteInvalidate,
    /// The reclamation after a delete; `removed` tells whether the value is
    /// gone.
    DeleteReclaim { removed: bool },
}

/// The progress of a service's current request, as contracts see it.
pub struct ServiceModel {
    /// The command in flight.
    pub stage: Stage,
    /// The bytes that a write in progress has yet to append.
    pub new_value: Seq<u8>,
}

/// What identifies a service, as contracts see it.
pub struct ServiceConfig {
    /// The service's number.
    pub service: u8,
    /// The fingerprint of the value type that this firmware was built with.
    pub fingerprint: Seq<u8>,
    /// The most bytes that a serialized value takes.
    pub max_size: usize,
}

/// A service at rest.
pub open spec fn idle() -> ServiceModel {
    ServiceModel { stage: Stage::Idle, new_value: Seq::empty() }
}

/// A service waiting for the result of one command.
pub open spec fn waiting(stage: Stage) -> ServiceModel {
    ServiceModel { stage, new_value: Seq::empty() }
}

/// Whether an invalidation left no value behind: it succeeded, or there was
/// none.
pub open spec fn gone(result: EngineResult) -> bool {
    result is Ok || result == Err::<SuccessCode, ErrorCode>(ErrorCode::KeyNotFound)
}

/// `Ok(())` for a success, `Err(())` for a failure.
pub open spec fn outcome(ok: bool) -> Result<(), ()> {
    if ok {
        Ok(())
    } else {
        Err(())
    }
}

impl ServiceConfig {
    /// The fingerprint is short enough for a program to hold.
    pub open spec fn valid(self) -> bool {
        self.fingerprint.len() <= usize::MAX
    }

    /// The engine key of the service's value.
    pub open spec fn data_key(self) -> u64 {
        record_key(self.service, StorageKeyType::Data)
    }

    /// The engine key of the service's stored fingerprint.
    pub open spec fn metadata_key(self) -> u64 {
        record_key(self.service, StorageKeyType::Metadata)
    }

    /// The boot-time check starts by looking up the stored fingerprint,
    /// with room for a fingerprint as long as the current one.
    pub open spec fn begin_initialize(self) -> (ServiceModel, ServiceAction<Seq<u8>>) {
        (
            waiting(Stage::CheckMetadata),
            ServiceAction::Get(self.metadata_key(), self.fingerprint.len() as usize),
        )
    }

    /// The first move on a client's request. A read looks the value up,
    /// with room for as many bytes as a serialized value takes at most. A
    /// write of more bytes than the type's bound fails without touching
    /// storage; any other write starts by invalidating the current value.
    /// So does a delete.
    pub open spec fn begin(self, request: StorageRequest<Seq<u8>>) -> (
        ServiceModel,
        ServiceAction<Seq<u8>>,
    ) {
        match request {
            StorageRequest::Read => (
                waiting(Stage::ReadData),
                ServiceAction::Get(self.data_key(), self.max_size),
            ),
            StorageRequest::Write(value) => if value.len() > self.max_size {
                (idle(), ServiceAction::Respond(StorageResponse::Write(Err(()))))
            } else {
                (
                    ServiceModel { stage: Stage::WriteInvalidate, new_value: value },
                    ServiceAction::Invalidate(self.data_key()),
                )
            },
            StorageRequest::Delete => (
                waiting(Stage::DeleteInvalidate),
                ServiceAction::Invalidate(self.data_key()),
            ),
        }
    }

    /// The move on the result of the command in flight; `value` holds the
    /// bytes that a lookup found.
    ///
    /// The boot-time check is done when the stored fingerprint is the
    /// current one. Otherwise the value and the stored fingerprint are
    /// invalidated, whatever the engine says to that, space is reclaimed and
    /// the current fingerprint is appended; a failure of either of the last
    /// two leaves storage in an unknown state.
    ///
    /// A read answers with the bytes found, or with a failure.
    ///
    /// A write, after the invalidation, reclaims space and then appends the
    /// new value; it answers with the append's outcome. A delete reclaims
    /// space after the invalidation and answers with a success when the
    /// value is gone. A failed reclamation leaves storage in an unknown
    /// state.
    ///
    /// A result that arrives while nothing is in flight cannot be acted on.
    pub open spec fn resume(self, state: ServiceModel, result: EngineResult, value: Seq<u8>) -> (
        ServiceModel,
        ServiceAction<Seq<u8>>,
    ) {
        match state.stage {
            Stage::Idle => (idle(), ServiceAction::Halt),
            Stage::CheckMetadata => if result is Ok && value == self.fingerprint {
                (idle(), ServiceAction::Initialized)
            } else {
                (waiting(Stage::ResetData), ServiceAction::Invalidate(self.data_key()))
            },
            Stage::ResetData => (
                waiting(Stage::ResetMetadata),
                ServiceAction::Invalidate(self.metadata_key()),
            ),
            Stage::ResetMetadata => (waiting(Stage::ResetReclaim), ServiceAction::GarbageCollect),
            Stage::ResetReclaim => if result is Ok {
                (
                    waiting(Stage::ResetInstall),
                    ServiceAction::Append(self.metadata_key(), self.fingerprint),
                )
            } else {
                (idle(), ServiceAction::Halt)
            },
            Stage::ResetInstall => if result is Ok {
                (idle(), ServiceAction::Initialized)
            } else {
                (idle(), ServiceAction::Halt)
            },
            Stage::ReadData => if result is Ok {
                (idle(), ServiceAction::Respond(StorageResponse::Read(Ok(value))))
            } else {
                (idle(), ServiceAction::Respond(StorageResponse::Read(Err(()))))
            },
            Stage::WriteInvalidate => (
                ServiceModel { stage: Stage::WriteReclaim, new_value: state.new_value },
                ServiceAction::GarbageCollect,
            ),
            Stage::WriteReclaim => if result is Ok {
                (
                    waiting(Stage::WriteAppend),
                    ServiceAction::Append(self.data_key(), state.new_value),
                )
            } else {
                (idle(), ServiceAction::Halt)
            },
            Stage::WriteAppend => (
                idle(),
                ServiceAction::Respond(StorageResponse::Write(outcome(result is Ok))),
            ),
            Stage::DeleteInvalidate => (
                waiting(Stage::DeleteReclaim { removed: gone(result) }),
                ServiceAction::GarbageCollect,
            ),
            Stage::DeleteReclaim { removed } => if result is Ok {
                (idle(), ServiceAction::Respond(StorageResponse::Delete(outcome(removed))))
            } else {
                (idle(), ServiceAction::Halt)
            },
        }
    }
}

/// The progress of a service's current request.
pub struct StorageServiceState {
    stage: Stage,
    new_value: Vec<u8>,
}

impl View for StorageServiceState {
    type V = ServiceModel;

    closed spec fn view(&self) -> ServiceModel {
        ServiceModel { stage: self.stage, new_value: self.new_value@ }
    }
}

impl StorageServiceState {
    /// The state of a service at rest.
    pub fn new() -> (state: Self)
        ensures
            state@ == idle(),
    {
        StorageServiceState { stage: Stage::Idle, new_value: Vec::new() }
    }

    /// The command whose result the service is waiting for.
    pub fn stage(&self) -> (stage: Stage)
        ensures
            stage == self@.stage,
    {
        self.stage
    }
}

/// The service that keeps the record with the number `K`.
pub struct StorageService<const K: u8> {
    fingerprint: Vec<u8>,
    max_size: usize,
}

impl<const K: u8> View for StorageService<K> {
    type V = ServiceConfig;

    closed spec fn view(&self) -> ServiceConfig {
        ServiceConfig { service: K, fingerprint: self.fingerprint@, max_size: self.max_size }
    }
}

/// Whether two byte strings are the same.
fn same_bytes(a: &[u8], b: &[u8]) -> (same: bool)
    ensures
        same == (a@ == b@),
{
    if a.len() != b.len() {
        return false;
    }
    let mut i: usize = 0;
    while i < a.len()
        invariant
            i <= a@.len(),
            a@.len() == b@.len(),
            forall|j: int| 0 <= j < i ==> a@[j] == b@[j],
        decreases a@.len() - i,
    {
        if a[i] != b[i] {
            return false;
        }
        i += 1;
    }
    assert(a@ =~= b@);
    true
}

impl<const K: u8> StorageService<K> {
    /// The service for values whose type has the given fingerprint and
    /// whose serialized form takes at most `max_size` bytes.
    pub fn new(fingerprint: Vec<u8>, max_size: usize) -> (service: Self)
        ensures
            service@ == (ServiceConfig { service: K, fingerprint: fingerprint@, max_size }),
            service@.valid(),
    {
        assert(fingerprint@.len() == fingerprint.len());
        StorageService { fingerprint, max_size }
    }

    /// The fingerprint of the value type that the service was built for.
    pub fn fingerprint(&self) -> (fingerprint: &[u8])
        ensures
            fingerprint@ == self@.fingerprint,
            self@.valid(),
    {
        assert(self.fingerprint@.len() == self.fingerprint.len());
        self.fingerprint.as_slice()
    }

    /// The most bytes that a serialized value takes.
    pub fn max_size(&self) -> (max_size: usize)
        ensures
            max_size == self@.max_size,
            self@.service == K,
    {
        self.max_size
    }

    /// Starts the boot-time check of the stored fingerprint.
    pub fn initialize(&self, state: &mut StorageServiceState) -> (action: ServiceAction<Vec<u8>>)
        ensures
            (final(state)@, action@) == self@.begin_initialize(),
    {
        state.stage = Stage::CheckMetadata;
        state.new_value = Vec::new();
        ServiceAction::Get(storage_key(K, StorageKeyType::Metadata), self.fingerprint.len())
    }

    /// Starts on a client's request.
    pub fn handle_request(
        &self,
        state: &mut StorageServiceState,
        request: StorageRequest<Vec<u8>>,
    ) -> (action: ServiceAction<Vec<u8>>)
        ensures
            (final(state)@, action@) == self@.begin(request@),
    {
        state.new_value = Vec::new();
        match request {
            StorageRequest::Read => {
                state.stage = Stage::ReadData;
                ServiceAction::Get(storage_key(K, StorageKeyType::Data), self.max_size)
            },
            StorageRequest::Write(value) => {
                if value.len() > self.max_size {
                    state.stage = Stage::Idle;
                    ServiceAction::Respond(StorageResponse::Write(Err(())))
                } else {
                    state.stage = Stage::WriteInvalidate;
                    state.new_value = value;
                    ServiceAction::Invalidate(storage_key(K, StorageKeyType::Data))
                }
            },
            StorageRequest::Delete => {
                state.stage = Stage::DeleteInvalidate;
                ServiceAction::Invalidate(storage_key(K, StorageKeyType::Data))
            },
        }
    }

    /// Takes the result of the command in flight and says what to do next.
    pub fn resume(
        &self,
        state: &mut StorageServiceState,
        result: EngineResult,
        value: &[u8],
    ) -> (action: ServiceAction<Vec<u8>>)
        ensures
            (final(state)@, action@) == self@.resume(old(state)@, result, value@),
    {
        let stage = state.stage;
        let mut new_value: Vec<u8> = Vec::new();
        core::mem::swap(&mut state.new_value, &mut new_value);
        state.stage = Stage::Idle;
        match stage {
            Stage::Idle => ServiceAction::Halt,
            Stage::CheckMetadata => {
                if result.is_ok() && same_bytes(value, self.fingerprint.as_slice()) {
                    ServiceAction::Initialized
                } else {
                    state.stage = Stage::ResetData;
                    ServiceAction::Invalidate(storage_key(K, StorageKeyType::Data))
                }
            },
            Stage::ResetData => {
                state.stage = Stage::ResetMetadata;
                ServiceAction::Invalidate(storage_key(K, StorageKeyType::Metadata))
            },
            Stage::ResetMetadata => {
                state.stage = Stage::ResetReclaim;
                ServiceAction::GarbageCollect
            },
            Stage::ResetReclaim => {
                if result.is_ok() {
                    state.stage = Stage::ResetInstall;
                    ServiceAction::Append(
                        storage_key(K, StorageKeyType::Metadata),
                        slice_to_vec(self.fingerprint.as_slice()),
                    )
                } else {
                    ServiceAction::Halt
                }
            },
            Stage::ResetInstall => {
                if result.is_ok() {
                    ServiceAction::Initialized
                } else {
                    ServiceAction::Halt
                }
            },
            Stage::ReadData => {
                if result.is_ok() {
                    ServiceAction::Respond(StorageResponse::Read(Ok(slice_to_vec(value))))
                } else {
                    ServiceAction::Respond(StorageResponse::Read(Err(())))
                }
            },
            Stage::WriteInvalidate => {
                state.stage = Stage::WriteReclaim;
                state.new_value = new_value;
                ServiceAction::GarbageCollect
            },
            Stage::WriteReclaim => {
                if result.is_ok() {
                    state.stage = Stage::WriteAppend;
                    ServiceAction::Append(storage_key(K, StorageKeyType::Data), new_value)
                } else {
                    ServiceAction::Halt
                }
            },
            Stage::WriteAppend => {
                if result.is_ok() {
                    ServiceAction::Respond(StorageResponse::Write(Ok(())))
                } else {
                    ServiceAction::Respond(StorageResponse::Write(Err(())))
                }
            },
            Stage::DeleteInvalidate => {
                let removed = match result {
                    Ok(_) => true,
                    Err(ErrorCode::KeyNotFound) => true,
                    Err(_) => false,
                };
                state.stage = Stage::DeleteReclaim { removed };
                ServiceAction::GarbageCollect
            },
            Stage::DeleteReclaim { removed } => {
                if result.is_ok() {
                    if removed {
                        ServiceAction::Respond(StorageResponse::Delete(Ok(())))
                    } else {
                        ServiceAction::Respond(StorageResponse::Delete(Err(())))
                    }
                } else {
                    ServiceAction::Halt
                }
            },
        }
    }
}

/// Where a keyboard's settings lie in an emulated EEPROM. The addresses
/// follow the layout that QMK uses.
pub trait KeyboardWithEEPROM {
    const EECONFIG_KB_DATA_SIZE: usize = 0;

    const EECONFIG_USER_DATA_SIZE: usize = 0;

    const EECONFIG_MAGIC_ADDR: u16 = 0;

    const EECONFIG_DEBUG_ADDR: u8 = 2;

    const EECONFIG_DEFAULT_LAYER_ADDR: u8 = 3;

    const EECONFIG_KEYMAP_ADDR: u16 = 4;

    const EECONFIG_BACKLIGHT_ADDR: u8 = 6;

    const EECONFIG_AUDIO_ADDR: u8 = 7;

    const EECONFIG_RGBLIGHT_ADDR: u32 = 8;

    const EECONFIG_UNICODEMODE_ADDR: u8 = 12;

    const EECONFIG_STENOMODE_ADDR: u8 = 13;

    const EECONFIG_HANDEDNESS_ADDR: u8 = 14;

    const EECONFIG_KEYBOARD_ADDR: u32 = 15;

    const EECONFIG_USER_ADDR: u32 = 19;

    const EECONFIG_VELOCIKEY_ADDR: u8 = 23;

    const EECONFIG_LED_MATRIX_ADDR: u32 = 24;

    const EECONFIG_RGB_MATRIX_ADDR: u64 = 24;

    const EECONFIG_HAPTIC_ADDR: u32 = 32;

    const EECONFIG_RGBLIGHT_EXTENDED_ADDR: u8 = 36;

    /// The size of the settings above. Settings of other features follow
    /// from this address on.
    const EECONFIG_BASE_SIZE: usize = 37;

    /// The size of all settings, the keyboard's and the user's own data
    /// included.
    const EECONFIG_SIZE: usize = Self::EECONFIG_BASE_SIZE + Self::EECONFIG_KB_DATA_SIZE
        + Self::EECONFIG_USER_DATA_SIZE;

    /// The number of bytes that the emulation of the EEPROM takes in flash.
    const EEPROM_TOTAL_BYTE_COUNT: usize = Self::EECONFIG_SIZE + 3;
}

} // verus!
