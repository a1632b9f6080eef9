use std::cell::RefCell;

use rumcake::continuation::{
    continue_to_completion, initialise, start_operation, Continuation, DriverAction, DriverEvent,
};
use rumcake::eeprom::{
    get_hashed_key, ServiceAction, StorageRequest, StorageResponse, StorageService,
    StorageServiceState,
};
use rumcake::engine::{EngineResult, ErrorCode, SuccessCode};
use rumcake::hw::{FlashDevice, FlashRequest};
use rumcake::task::{storage_task, TaskAction, TaskEvent, TaskState};

const PAGE: usize = 1024;
const START: usize = 0x2000;
const PAGES: usize = 4;
const END: usize = START + PAGES * PAGE;

/// A flash chip in memory. Programming can only clear bits.
struct Chip {
    bytes: Vec<u8>,
    log: Vec<FlashRequest>,
    /// The number of requests that succeed before every further one fails.
    budget: Option<usize>,
}

impl Chip {
    fn new() -> Chip {
        Chip { bytes: vec![0xFF; END + PAGE], log: Vec::new(), budget: None }
    }

    fn perform(&mut self, device: &mut FlashDevice, request: FlashRequest) -> bool {
        self.log.push(request);
        if let Some(left) = self.budget {
            if left == 0 {
                return false;
            }
            self.budget = Some(left - 1);
        }
        match request {
            FlashRequest::Read { address, offset, len } => {
                let address = address as usize;
                assert!(offset + len <= device.op_buf().len());
                device.load(offset, &self.bytes[address..address + len]);
            }
            FlashRequest::Erase { from, to } => {
                for byte in &mut self.bytes[from as usize..to as usize] {
                    *byte = 0xFF;
                }
            }
            FlashRequest::Write { address, offset, len } => {
                let address = address as usize;
                let data = &device.op_buf()[offset..offset + len];
                for (cell, byte) in self.bytes[address..address + len].iter_mut().zip(data) {
                    *cell &= *byte;
                }
            }
        }
        true
    }
}

struct Controller {
    device: RefCell<FlashDevice>,
}

fn engine_error(code: ErrorCode) -> tickv::ErrorCode {
    match code {
        ErrorCode::UnsupportedVersion => tickv::ErrorCode::UnsupportedVersion,
        ErrorCode::CorruptData => tickv::ErrorCode::CorruptData,
        ErrorCode::InvalidCheckSum => tickv::ErrorCode::InvalidCheckSum,
        ErrorCode::KeyNotFound => tickv::ErrorCode::KeyNotFound,
        ErrorCode::KeyAlreadyExists => tickv::ErrorCode::KeyAlreadyExists,
        ErrorCode::RegionFull => tickv::ErrorCode::RegionFull,
        ErrorCode::FlashFull => tickv::ErrorCode::FlashFull,
        ErrorCode::ReadFail => tickv::ErrorCode::ReadFail,
        ErrorCode::WriteFail => tickv::ErrorCode::WriteFail,
        ErrorCode::EraseFail => tickv::ErrorCode::EraseFail,
        ErrorCode::ObjectTooLarge => tickv::ErrorCode::ObjectTooLarge,
        ErrorCode::BufferTooSmall(n) => tickv::ErrorCode::BufferTooSmall(n),
        ErrorCode::ReadNotReady(n) => tickv::ErrorCode::ReadNotReady(n),
        ErrorCode::WriteNotReady(n) => tickv::ErrorCode::WriteNotReady(n),
        ErrorCode::EraseNotReady(n) => tickv::ErrorCode::EraseNotReady(n),
    }
}

fn library_error(code: tickv::ErrorCode) -> ErrorCode {
    match code {
        tickv::ErrorCode::UnsupportedVersion => ErrorCode::UnsupportedVersion,
        tickv::ErrorCode::CorruptData => ErrorCode::CorruptData,
        tickv::ErrorCode::InvalidCheckSum => ErrorCode::InvalidCheckSum,
        tickv::ErrorCode::KeyNotFound => ErrorCode::KeyNotFound,
        tickv::ErrorCode::KeyAlreadyExists => ErrorCode::KeyAlreadyExists,
        tickv::ErrorCode::RegionFull => ErrorCode::RegionFull,
        tickv::ErrorCode::FlashFull => ErrorCode::FlashFull,
        tickv::ErrorCode::ReadFail => ErrorCode::ReadFail,
        tickv::ErrorCode::WriteFail => ErrorCode::WriteFail,
        tickv::ErrorCode::EraseFail => ErrorCode::EraseFail,
        tickv::ErrorCode::ObjectTooLarge => ErrorCode::ObjectTooLarge,
        tickv::ErrorCode::BufferTooSmall(n) => ErrorCode::BufferTooSmall(n),
        tickv::ErrorCode::ReadNotReady(n) => ErrorCode::ReadNotReady(n),
        tickv::ErrorCode::WriteNotReady(n) => ErrorCode::WriteNotReady(n),
        tickv::ErrorCode::EraseNotReady(n) => ErrorCode::EraseNotReady(n),
    }
}

fn library_result(result: Result<tickv::success_codes::SuccessCode, tickv::ErrorCode>) -> EngineResult {
    match result {
        Ok(tickv::success_codes::SuccessCode::Complete) => Ok(SuccessCode::Complete),
        Ok(tickv::success_codes::SuccessCode::Written) => Ok(SuccessCode::Written),
        Ok(tickv::success_codes::SuccessCode::Queued) => Ok(SuccessCode::Queued),
        Err(code) => Err(library_error(code)),
    }
}

impl tickv::FlashController<PAGE> for Controller {
    fn read_region(&self, region_number: usize, _buf: &mut [u8; PAGE]) -> Result<(), tickv::ErrorCode> {
        Err(engine_error(self.device.borrow_mut().read_region(region_number)))
    }

    fn write(&self, address: usize, buf: &[u8]) -> Result<(), tickv::ErrorCode> {
        assert!(address % PAGE + buf.len() <= PAGE);
        Err(engine_error(self.device.borrow_mut().buffer_write(address, buf)))
    }

    fn erase_region(&self, region_number: usize) -> Result<(), tickv::ErrorCode> {
        Err(engine_error(self.device.borrow_mut().erase_region(region_number)))
    }
}

/// The storage stack on a chip in memory: the engine, the adapter inside it,
/// and the loops that an embedding program runs around the library.
struct Rig {
    database: tickv::AsyncTicKV<'static, Controller, PAGE>,
    chip: Chip,
    /// How often the engine's step function was re-invoked.
    continues: usize,
}

fn leak(bytes: Vec<u8>) -> &'static mut [u8] {
    Box::leak(bytes.into_boxed_slice())
}

impl Rig {
    fn on(chip: Chip) -> Rig {
        assert!(FlashDevice::valid_config(START, END, PAGE));
        let device = FlashDevice::new(START, END, PAGE);
        let size = device.flash_size();
        let controller = Controller { device: RefCell::new(device) };
        let read_buffer: &'static mut [u8; PAGE] = Box::leak(Box::new([0u8; PAGE]));
        Rig {
            database: tickv::AsyncTicKV::new(controller, read_buffer, size),
            chip,
            continues: 0,
        }
    }

    fn new() -> Rig {
        let mut rig = Rig::on(Chip::new());
        assert!(rig.mount().unwrap().is_ok());
        rig
    }

    /// Gives the chip to a fresh engine, as after a power cycle.
    fn reboot(self) -> Rig {
        let mut rig = Rig::on(self.chip);
        assert!(rig.mount().unwrap().is_ok());
        rig
    }

    /// Runs the continuation until the operation is done. `None` stands for
    /// a halt.
    fn drive(&mut self, first: (Continuation, DriverAction)) -> Option<(EngineResult, Vec<u8>)> {
        let (mut state, mut action) = first;
        let mut value = Vec::new();
        loop {
            let event = match action {
                DriverAction::Flash(request) => {
                    let mut device = self.database.tickv.controller.device.borrow_mut();
                    DriverEvent::FlashDone(self.chip.perform(&mut device, request))
                }
                DriverAction::Continue { load_read_buffer } => {
                    if load_read_buffer {
                        let device = self.database.tickv.controller.device.borrow();
                        self.database.set_read_buffer(device.op_buf());
                    }
                    self.continues += 1;
                    let (result, buffer, length) = self.database.continue_operation();
                    if let Some(buffer) = buffer {
                        value = buffer[..length].to_vec();
                    }
                    DriverEvent::Returned(library_result(result))
                }
                DriverAction::Done(result) => return Some((result, value)),
                DriverAction::Halt => return None,
            };
            let mut device = self.database.tickv.controller.device.borrow_mut();
            (state, action) = continue_to_completion(&mut device, state, event);
        }
    }

    fn mount(&mut self) -> Option<EngineResult> {
        let started = library_result(self.database.initialise(get_hashed_key(tickv::MAIN_KEY)));
        let first = initialise(&mut self.database.tickv.controller.device.borrow_mut(), started);
        self.drive(first).map(|(result, _)| result)
    }

    /// Has the engine perform one command of a service.
    fn command(&mut self, action: &ServiceAction<Vec<u8>>) -> Option<(EngineResult, Vec<u8>)> {
        let started = match action {
            ServiceAction::Get(key, room) => self
                .database
                .get_key(*key, leak(vec![0; *room]))
                .map_err(|(_, code)| code),
            ServiceAction::Invalidate(key) => self.database.invalidate_key(*key),
            ServiceAction::GarbageCollect => self.database.garbage_collect(),
            ServiceAction::Append(key, value) => self
                .database
                .append_key(*key, leak(value.clone()), value.len())
                .map_err(|(_, code)| code),
            _ => unreachable!(),
        };
        let first = start_operation(
            &mut self.database.tickv.controller.device.borrow_mut(),
            library_result(started),
        );
        self.drive(first)
    }

    /// Has the engine perform the commands of a service until the service
    /// comes to an end.
    fn finish<const K: u8>(
        &mut self,
        service: &StorageService<K>,
        state: &mut StorageServiceState,
        mut action: ServiceAction<Vec<u8>>,
    ) -> ServiceAction<Vec<u8>> {
        loop {
            match action {
                ServiceAction::Initialized | ServiceAction::Respond(_) | ServiceAction::Halt => {
                    return action
                }
                _ => {}
            }
            action = match self.command(&action) {
                Some((result, value)) => service.resume(state, result, &value),
                None => return ServiceAction::Halt,
            };
        }
    }

    fn boot<const K: u8>(&mut self, service: &StorageService<K>) -> ServiceAction<Vec<u8>> {
        let mut state = StorageServiceState::new();
        let action = service.initialize(&mut state);
        self.finish(service, &mut state, action)
    }

    fn request<const K: u8>(
        &mut self,
        service: &StorageService<K>,
        request: StorageRequest<Vec<u8>>,
    ) -> StorageResponse<Vec<u8>> {
        let mut state = StorageServiceState::new();
        let action = service.handle_request(&mut state, request);
        match self.finish(service, &mut state, action) {
            ServiceAction::Respond(response) => response,
            other => panic!("no answer: {:?}", other),
        }
    }
}

fn backlight() -> StorageService<0> {
    StorageService::new(vec![0x11; 16], 32)
}

fn underglow() -> StorageService<1> {
    StorageService::new(vec![0x22; 16], 48)
}

#[test]
fn mount_formats_an_empty_chip() {
    let mut rig = Rig::on(Chip::new());
    assert!(rig.mount().unwrap().is_ok());
    // every page was erased and the main key was written to one of them
    let erased = rig.chip.log.iter().filter(|r| matches!(r, FlashRequest::Erase { .. })).count();
    assert!(erased >= PAGES);
    assert!(rig.chip.bytes[START..END].iter().any(|byte| *byte != 0xFF));
    assert!(rig.chip.bytes[..START].iter().all(|byte| *byte == 0xFF));
    assert!(rig.chip.bytes[END..].iter().all(|byte| *byte == 0xFF));
}

#[test]
fn mount_keeps_a_formatted_chip() {
    let rig = Rig::new();
    let before = rig.chip.bytes.clone();
    let mut rig = Rig::on(Chip { bytes: before.clone(), log: Vec::new(), budget: None });
    assert!(rig.mount().unwrap().is_ok());
    assert_eq!(rig.chip.bytes, before);
    assert!(rig.chip.log.iter().all(|r| matches!(r, FlashRequest::Read { .. })));
}

#[test]
fn write_then_read_returns_the_value() {
    let mut rig = Rig::new();
    let service = backlight();
    assert_eq!(rig.boot(&service), ServiceAction::Initialized);
    let value = vec![1, 2, 3, 4, 5];
    assert_eq!(
        rig.request(&service, StorageRequest::Write(value.clone())),
        StorageResponse::Write(Ok(()))
    );
    assert_eq!(rig.request(&service, StorageRequest::Read), StorageResponse::Read(Ok(value)));
}

#[test]
fn round_trip_for_values_of_every_length() {
    let mut rig = Rig::new();
    let service = backlight();
    assert_eq!(rig.boot(&service), ServiceAction::Initialized);
    for length in 0..=32usize {
        let value: Vec<u8> = (0..length).map(|i| (i * 7 + length) as u8).collect();
        assert_eq!(
            rig.request(&service, StorageRequest::Write(value.clone())),
            StorageResponse::Write(Ok(()))
        );
        assert_eq!(rig.request(&service, StorageRequest::Read), StorageResponse::Read(Ok(value)));
    }
}

#[test]
fn value_survives_a_power_cycle() {
    let mut rig = Rig::new();
    let service = backlight();
    assert_eq!(rig.boot(&service), ServiceAction::Initialized);
    rig.request(&service, StorageRequest::Write(vec![9, 8, 7]));
    let mut rig = rig.reboot();
    assert_eq!(rig.boot(&service), ServiceAction::Initialized);
    assert_eq!(
        rig.request(&service, StorageRequest::Read),
        StorageResponse::Read(Ok(vec![9, 8, 7]))
    );
}

#[test]
fn oversized_write_fails_without_touching_flash() {
    let mut rig = Rig::new();
    let service = backlight();
    assert_eq!(rig.boot(&service), ServiceAction::Initialized);
    rig.request(&service, StorageRequest::Write(vec![5; 32]));
    let before = rig.chip.bytes.clone();
    rig.chip.log.clear();
    assert_eq!(
        rig.request(&service, StorageRequest::Write(vec![6; 33])),
        StorageResponse::Write(Err(()))
    );
    assert!(rig.chip.log.is_empty());
    assert_eq!(rig.chip.bytes, before);
    assert_eq!(
        rig.request(&service, StorageRequest::Read),
        StorageResponse::Read(Ok(vec![5; 32]))
    );
}

#[test]
fn read_of_nothing_fails() {
    let mut rig = Rig::new();
    let service = backlight();
    assert_eq!(rig.boot(&service), ServiceAction::Initialized);
    assert_eq!(rig.request(&service, StorageRequest::Read), StorageResponse::Read(Err(())));
}

#[test]
fn delete_then_read_fails() {
    let mut rig = Rig::new();
    let service = backlight();
    assert_eq!(rig.boot(&service), ServiceAction::Initialized);
    rig.request(&service, StorageRequest::Write(vec![1, 2, 3]));
    assert_eq!(rig.request(&service, StorageRequest::Delete), StorageResponse::Delete(Ok(())));
    assert_eq!(rig.request(&service, StorageRequest::Read), StorageResponse::Read(Err(())));
}

#[test]
fn delete_of_nothing_succeeds() {
    let mut rig = Rig::new();
    let service = backlight();
    assert_eq!(rig.boot(&service), ServiceAction::Initialized);
    assert_eq!(rig.request(&service, StorageRequest::Delete), StorageResponse::Delete(Ok(())));
    assert_eq!(rig.request(&service, StorageRequest::Delete), StorageResponse::Delete(Ok(())));
    rig.request(&service, StorageRequest::Write(vec![4]));
    assert_eq!(rig.request(&service, StorageRequest::Delete), StorageResponse::Delete(Ok(())));
    assert_eq!(rig.request(&service, StorageRequest::Delete), StorageResponse::Delete(Ok(())));
}

#[test]
fn changed_fingerprint_resets_the_record() {
    let mut rig = Rig::new();
    let old = StorageService::<0>::new(vec![0xAB; 16], 32);
    assert_eq!(rig.boot(&old), ServiceAction::Initialized);
    assert_eq!(
        rig.request(&old, StorageRequest::Write(vec![1, 2, 3])),
        StorageResponse::Write(Ok(()))
    );

    let mut rig = rig.reboot();
    let new = StorageService::<0>::new(vec![0xCD; 16], 32);
    assert_eq!(rig.boot(&new), ServiceAction::Initialized);
    assert_eq!(rig.request(&new, StorageRequest::Read), StorageResponse::Read(Err(())));

    // the new fingerprint is installed: the next boot keeps what is stored
    rig.request(&new, StorageRequest::Write(vec![7, 7]));
    let mut rig = rig.reboot();
    rig.chip.log.clear();
    assert_eq!(rig.boot(&new), ServiceAction::Initialized);
    assert!(rig.chip.log.iter().all(|r| matches!(r, FlashRequest::Read { .. })));
    assert_eq!(rig.request(&new, StorageRequest::Read), StorageResponse::Read(Ok(vec![7, 7])));
}

#[test]
fn fingerprint_of_another_length_resets_the_record() {
    let mut rig = Rig::new();
    let old = StorageService::<0>::new(vec![0xAB; 16], 32);
    assert_eq!(rig.boot(&old), ServiceAction::Initialized);
    rig.request(&old, StorageRequest::Write(vec![1, 2, 3]));

    let shorter = StorageService::<0>::new(vec![0xAB; 8], 32);
    assert_eq!(rig.boot(&shorter), ServiceAction::Initialized);
    assert_eq!(rig.request(&shorter, StorageRequest::Read), StorageResponse::Read(Err(())));
    rig.request(&shorter, StorageRequest::Write(vec![4, 5]));

    let longer = StorageService::<0>::new(vec![0xAB; 16], 32);
    assert_eq!(rig.boot(&longer), ServiceAction::Initialized);
    assert_eq!(rig.request(&longer, StorageRequest::Read), StorageResponse::Read(Err(())));
}

#[test]
fn unchanged_fingerprint_keeps_the_record() {
    let mut rig = Rig::new();
    let service = backlight();
    assert_eq!(rig.boot(&service), ServiceAction::Initialized);
    rig.request(&service, StorageRequest::Write(vec![3, 1, 4]));
    assert_eq!(rig.boot(&service), ServiceAction::Initialized);
    assert_eq!(
        rig.request(&service, StorageRequest::Read),
        StorageResponse::Read(Ok(vec![3, 1, 4]))
    );
}

#[test]
fn a_thousand_writes_do_not_exhaust_the_flash() {
    let mut rig = Rig::new();
    let service = backlight();
    assert_eq!(rig.boot(&service), ServiceAction::Initialized);
    // each record takes 47 bytes of a 4096-byte partition
    for round in 0..1200u32 {
        let value: Vec<u8> = (0..32).map(|i| (round + i) as u8).collect();
        assert_eq!(
            rig.request(&service, StorageRequest::Write(value.clone())),
            StorageResponse::Write(Ok(())),
            "write {}",
            round
        );
        assert_eq!(rig.request(&service, StorageRequest::Read), StorageResponse::Read(Ok(value)));
    }
}

#[test]
fn later_write_wins() {
    let mut rig = Rig::new();
    let service = backlight();
    assert_eq!(rig.boot(&service), ServiceAction::Initialized);
    let queue = vec![StorageRequest::Write(vec![0xA; 8]), StorageRequest::Write(vec![0xB; 12])];
    for request in queue {
        assert_eq!(rig.request(&service, request), StorageResponse::Write(Ok(())));
    }
    assert_eq!(
        rig.request(&service, StorageRequest::Read),
        StorageResponse::Read(Ok(vec![0xB; 12]))
    );
}

#[test]
fn two_services_do_not_disturb_each_other() {
    let mut rig = Rig::new();
    let first = backlight();
    let second = underglow();
    assert_eq!(rig.boot(&first), ServiceAction::Initialized);
    assert_eq!(rig.boot(&second), ServiceAction::Initialized);
    for round in 0..20u8 {
        assert_eq!(
            rig.request(&first, StorageRequest::Write(vec![round; 5])),
            StorageResponse::Write(Ok(()))
        );
        assert_eq!(
            rig.request(&second, StorageRequest::Write(vec![round + 100; 9])),
            StorageResponse::Write(Ok(()))
        );
        assert_eq!(
            rig.request(&first, StorageRequest::Read),
            StorageResponse::Read(Ok(vec![round; 5]))
        );
        assert_eq!(
            rig.request(&second, StorageRequest::Read),
            StorageResponse::Read(Ok(vec![round + 100; 9]))
        );
    }
    assert_eq!(rig.request(&first, StorageRequest::Delete), StorageResponse::Delete(Ok(())));
    assert_eq!(
        rig.request(&second, StorageRequest::Read),
        StorageResponse::Read(Ok(vec![119; 9]))
    );
}

#[test]
fn engine_is_retried_once_for_every_request_it_makes() {
    let mut rig = Rig::new();
    let service = backlight();
    assert_eq!(rig.boot(&service), ServiceAction::Initialized);
    rig.request(&service, StorageRequest::Write(vec![1; 10]));

    // a lookup: the adapter defers each page read once, the driver performs
    // it and re-invokes the engine once
    rig.chip.log.clear();
    rig.continues = 0;
    assert_eq!(
        rig.request(&service, StorageRequest::Read),
        StorageResponse::Read(Ok(vec![1; 10]))
    );
    let reads = rig.chip.log.len();
    assert!(reads >= 1);
    assert!(rig.chip.log.iter().all(|r| matches!(r, FlashRequest::Read { len: PAGE, .. })));
    assert_eq!(rig.continues, reads);
}

#[test]
fn trailing_write_reaches_the_flash_before_the_answer() {
    let mut rig = Rig::new();
    let service = backlight();
    assert_eq!(rig.boot(&service), ServiceAction::Initialized);
    rig.chip.log.clear();
    assert_eq!(
        rig.request(&service, StorageRequest::Write(vec![0x5A; 20])),
        StorageResponse::Write(Ok(()))
    );
    // the append ends with one page rewritten: erase, then two chunks
    let tail: Vec<FlashRequest> = rig.chip.log.iter().rev().take(3).rev().cloned().collect();
    assert!(matches!(tail[0], FlashRequest::Erase { .. }));
    assert!(matches!(tail[1], FlashRequest::Write { offset: 0, len: 512, .. }));
    assert!(matches!(tail[2], FlashRequest::Write { offset: 512, len: 512, .. }));
    // and the bytes are on the chip
    let needle = [0x5A; 20];
    assert!(rig.chip.bytes[START..END].windows(20).any(|window| window == needle));
}

#[test]
fn failing_flash_fails_the_read() {
    let mut rig = Rig::new();
    let service = backlight();
    assert_eq!(rig.boot(&service), ServiceAction::Initialized);
    rig.request(&service, StorageRequest::Write(vec![1; 10]));
    rig.chip.budget = Some(0);
    let mut state = StorageServiceState::new();
    let action = service.handle_request(&mut state, StorageRequest::Read);
    assert_eq!(rig.command(&action), Some((Err(ErrorCode::ReadFail), Vec::new())));
    assert_eq!(
        service.resume(&mut state, Err(ErrorCode::ReadFail), &[]),
        ServiceAction::Respond(StorageResponse::Read(Err(())))
    );
}

#[test]
fn failing_flash_during_the_trailing_write_halts() {
    let mut rig = Rig::new();
    let service = backlight();
    assert_eq!(rig.boot(&service), ServiceAction::Initialized);
    rig.request(&service, StorageRequest::Write(vec![1; 10]));
    // the invalidation reads one page, then asks for the write: let the
    // page read and the two reads around the data pass, and fail the erase
    rig.chip.budget = Some(3);
    let mut state = StorageServiceState::new();
    let action = service.handle_request(&mut state, StorageRequest::Delete);
    assert!(matches!(action, ServiceAction::Invalidate(_)));
    assert_eq!(rig.command(&action), None);
    assert!(matches!(rig.chip.log.last(), Some(FlashRequest::Erase { .. })));
}

#[test]
fn task_mounts_initialises_and_serves_in_order() {
    let mut rig = Rig::on(Chip::new());
    let first = backlight();
    let second = underglow();
    let mut queues: [Vec<StorageRequest<Vec<u8>>>; 2] = [
        vec![StorageRequest::Write(vec![1; 4]), StorageRequest::Write(vec![2; 4])],
        vec![StorageRequest::Write(vec![3; 4]), StorageRequest::Read],
    ];
    let mut bells = vec![1usize, 0, 1];
    let mut answers: Vec<(usize, StorageResponse<Vec<u8>>)> = Vec::new();
    let mut trace: Vec<TaskAction> = Vec::new();
    let mut taken: Option<StorageRequest<Vec<u8>>> = None;

    let (mut state, mut action) = storage_task(2, TaskState::Booting, TaskEvent::Started);
    loop {
        trace.push(action);
        let event = match action {
            TaskAction::Mount => TaskEvent::Mounted(rig.mount().unwrap()),
            TaskAction::Initialize(0) => {
                assert_eq!(rig.boot(&first), ServiceAction::Initialized);
                TaskEvent::Initialized
            }
            TaskAction::Initialize(_) => {
                assert_eq!(rig.boot(&second), ServiceAction::Initialized);
                TaskEvent::Initialized
            }
            TaskAction::Wait => {
                if bells.is_empty() {
                    break;
                }
                TaskEvent::Woken(bells.remove(0))
            }
            TaskAction::Receive(index) => {
                if queues[index].is_empty() {
                    TaskEvent::Empty
                } else {
                    taken = Some(queues[index].remove(0));
                    TaskEvent::Received
                }
            }
            TaskAction::Serve(index) => {
                let request = taken.take().unwrap();
                let answer = if index == 0 {
                    rig.request(&first, request)
                } else {
                    rig.request(&second, request)
                };
                answers.push((index, answer));
                TaskEvent::Served
            }
            TaskAction::Halt => panic!("halt"),
        };
        (state, action) = storage_task(2, state, event);
    }
    assert_eq!(state, TaskState::Waiting);
    assert_eq!(
        trace,
        vec![
            TaskAction::Mount,
            TaskAction::Initialize(0),
            TaskAction::Initialize(1),
            TaskAction::Wait,
            TaskAction::Receive(1),
            TaskAction::Serve(1),
            TaskAction::Receive(1),
            TaskAction::Serve(1),
            TaskAction::Receive(1),
            TaskAction::Wait,
            TaskAction::Receive(0),
            TaskAction::Serve(0),
            TaskAction::Receive(0),
            TaskAction::Serve(0),
            TaskAction::Receive(0),
            TaskAction::Wait,
            TaskAction::Receive(1),
            TaskAction::Wait,
        ]
    );
    assert_eq!(
        answers,
        vec![
            (1, StorageResponse::Write(Ok(()))),
            (1, StorageResponse::Read(Ok(vec![3; 4]))),
            (0, StorageResponse::Write(Ok(()))),
            (0, StorageResponse::Write(Ok(()))),
        ]
    );
    assert_eq!(rig.request(&first, StorageRequest::Read), StorageResponse::Read(Ok(vec![2; 4])));
}

#[test]
fn write_keeps_the_rest_of_the_page() {
    let mut chip = Chip::new();
    for (i, byte) in chip.bytes.iter_mut().enumerate() {
        *byte = (i % 251) as u8;
    }
    let before = chip.bytes.clone();
    let mut device = FlashDevice::new(START, END, PAGE);
    let address = 2 * PAGE + 700;
    let data = [0xA5u8; 40];
    assert_eq!(device.buffer_write(address, &data), ErrorCode::WriteNotReady(address));

    let (mut state, mut action) =
        continue_to_completion(&mut device, Continuation::Finished, DriverEvent::Queued);
    while let DriverAction::Flash(request) = action {
        let ok = chip.perform(&mut device, request);
        (state, action) = continue_to_completion(&mut device, state, DriverEvent::FlashDone(ok));
    }
    assert_eq!(state, Continuation::Stepping);
    assert_eq!(action, DriverAction::Continue { load_read_buffer: false });

    let at = START + address;
    assert_eq!(&chip.bytes[at..at + 40], &data);
    assert_eq!(&chip.bytes[..at], &before[..at]);
    assert_eq!(&chip.bytes[at + 40..], &before[at + 40..]);
    assert_eq!(device.op_buf(), &chip.bytes[START + 2 * PAGE..START + 3 * PAGE]);
}

#[test]
fn read_brings_the_page_into_the_buffer() {
    let mut chip = Chip::new();
    for (i, byte) in chip.bytes.iter_mut().enumerate() {
        *byte = (i % 241) as u8;
    }
    let mut device = FlashDevice::new(START, END, PAGE);
    device.read_region(3);
    let (state, action) =
        continue_to_completion(&mut device, Continuation::Finished, DriverEvent::Queued);
    let request = match action {
        DriverAction::Flash(request) => request,
        other => panic!("no request: {:?}", other),
    };
    assert!(chip.perform(&mut device, request));
    assert_eq!(
        continue_to_completion(&mut device, state, DriverEvent::FlashDone(true)),
        (Continuation::Stepping, DriverAction::Continue { load_read_buffer: true })
    );
    assert_eq!(device.op_buf(), &chip.bytes[START + 3 * PAGE..START + 4 * PAGE]);
}

#[test]
fn erase_clears_one_page_only() {
    let mut chip = Chip::new();
    for byte in chip.bytes.iter_mut() {
        *byte = 0x3C;
    }
    let mut device = FlashDevice::new(START, END, PAGE);
    device.erase_region(1);
    let (_, action) =
        continue_to_completion(&mut device, Continuation::Finished, DriverEvent::Queued);
    let request = match action {
        DriverAction::Flash(request) => request,
        other => panic!("no request: {:?}", other),
    };
    assert!(chip.perform(&mut device, request));
    let page = START + PAGE;
    assert!(chip.bytes[page..page + PAGE].iter().all(|byte| *byte == 0xFF));
    assert!(chip.bytes[..page].iter().all(|byte| *byte == 0x3C));
    assert!(chip.bytes[page + PAGE..].iter().all(|byte| *byte == 0x3C));
}

#[test]
fn engine_codes_come_through() {
    let mut rig = Rig::new();
    let key = get_hashed_key(&[9, 0]);
    // nothing stored
    assert_eq!(
        rig.command(&ServiceAction::Get(key, 8)),
        Some((Err(ErrorCode::KeyNotFound), Vec::new()))
    );
    assert_eq!(
        rig.command(&ServiceAction::Invalidate(key)),
        Some((Err(ErrorCode::KeyNotFound), Vec::new()))
    );
    // stored once, refused twice
    let (result, _) = rig.command(&ServiceAction::Append(key, vec![1, 2, 3, 4])).unwrap();
    assert_eq!(result, Ok(SuccessCode::Queued));
    let (result, _) = rig.command(&ServiceAction::Append(key, vec![5])).unwrap();
    assert_eq!(result, Err(ErrorCode::KeyAlreadyExists));
    // found, with and without room
    assert_eq!(
        rig.command(&ServiceAction::Get(key, 8)),
        Some((Ok(SuccessCode::Complete), vec![1, 2, 3, 4]))
    );
    let (result, _) = rig.command(&ServiceAction::Get(key, 2)).unwrap();
    assert_eq!(result, Err(ErrorCode::BufferTooSmall(4)));
    // gone
    let (result, _) = rig.command(&ServiceAction::Invalidate(key)).unwrap();
    assert_eq!(result, Ok(SuccessCode::Queued));
    let (result, _) = rig.command(&ServiceAction::GarbageCollect).unwrap();
    assert_eq!(result, Ok(SuccessCode::Complete));
    assert_eq!(
        rig.command(&ServiceAction::Get(key, 8)),
        Some((Err(ErrorCode::KeyNotFound), Vec::new()))
    );
}

#[test]
fn engine_that_refuses_to_queue_halts() {
    let mut rig = Rig::new();
    let key = get_hashed_key(&[9, 0]);
    // larger than any object the engine takes
    assert_eq!(rig.command(&ServiceAction::Append(key, vec![0; 5000])), None);
}

#[test]
fn full_flash_fails_the_write() {
    let mut rig = Rig::new();
    // fill every page with records of other keys
    let mut stored = 0;
    for number in 0..200u8 {
        let key = get_hashed_key(&[number, 7]);
        match rig.command(&ServiceAction::Append(key, vec![number; 100])).unwrap().0 {
            Ok(_) => stored += 1,
            Err(code) => {
                assert!(matches!(code, ErrorCode::FlashFull | ErrorCode::RegionFull));
                break;
            }
        }
    }
    assert!(stored >= PAGES && stored < 40);
    let service = StorageService::<0>::new(vec![0x11; 16], 200);
    assert_eq!(
        rig.request(&service, StorageRequest::Write(vec![1; 200])),
        StorageResponse::Write(Err(()))
    );
    assert_eq!(rig.request(&service, StorageRequest::Read), StorageResponse::Read(Err(())));
}
