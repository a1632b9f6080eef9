//! The flash partition that holds the configuration, seen as pages.

use vstd::prelude::*;
use vstd::arithmetic::div_mod::lemma_fundamental_div_mod;
use vstd::arithmetic::mul::lemma_mul_inequality;
use crate::engine::ErrorCode;

verus! {

/// The most bytes that one program request carries.
pub const WRITE_CHUNK: usize = 512;

/// The flash operation that the engine asked for last and that has not been
/// performed yet.
#[derive(Debug, Clone, Copy, PartialEq, Eq)]
pub enum PendingOperation {
    /// Read the page with this number.
    Read(usize),
    /// Program this many bytes at this partition-relative address.
    Write(usize, usize),
    /// Erase the page with this number.
    Delete(usize),
}

/// One primitive request to the raw flash device, in absolute addresses.
#[derive(Debug, Clone, Copy, PartialEq, Eq)]
pub enum FlashRequest {
    /// Read `len` bytes at `address` into the page buffer at `offset`.
    Read { address: u32, offset: usize, len: usize },
    /// Erase the bytes from `from` up to, not including, `to`.
    Erase { from: u32, to: u32 },
    /// Program `len` bytes of the page buffer, taken at `offset`, at `address`.
    Write { address: u32, offset: usize, len: usize },
}

/// The address range of a partition and the size of its pages.
pub struct Region {
    pub start: usize,
    pub end: usize,
    pub erase_size: usize,
}

impl Region {
    /// A partition is not empty, starts on a page boundary, holds whole
    /// pages, and lies where the device's 32-bit addresses reach.
    pub open spec fn valid(self) -> bool {
        &&& self.erase_size > 0
        &&& self.start < self.end
        &&& (self.end - self.start) % (self.erase_size as int) == 0
        &&& self.start % self.erase_size == 0
        &&& self.end <= u32::MAX
    }

    /// The number of bytes in the partition.
    pub open spec fn size(self) -> int {
        self.end - self.start
    }

    /// The number of pages in the partition.
    pub open spec fn pages(self) -> int {
        self.size() / (self.erase_size as int)
    }

    /// Whether a whole page starting at the relative `address` lies in the
    /// partition.
    pub open spec fn admits_page(self, address: int) -> bool {
        0 <= address && address + self.erase_size <= self.size()
    }

    /// Whether `len` bytes at the relative `address` lie within one page of
    /// the partition.
    pub open spec fn admits_write(self, address: int, len: int) -> bool {
        let offset = address % (self.erase_size as int);
        &&& 0 <= address
        &&& 0 <= len
        &&& offset + len <= self.erase_size
        &&& address - offset + self.erase_size <= self.size()
    }

    /// The number of program requests that rewrite one page.
    pub open spec fn chunks(self) -> int {
        (self.erase_size + WRITE_CHUNK - 1) / (WRITE_CHUNK as int)
    }

    /// Whether a request touches only bytes of the partition and only bytes
    /// of the page buffer.
    pub open spec fn contains(self, request: FlashRequest) -> bool {
        match request {
            FlashRequest::Read { address, offset, len } => {
                &&& self.start <= address
                &&& address + len <= self.end
                &&& offset + len <= self.erase_size
            },
            FlashRequest::Erase { from, to } => {
                &&& self.start <= from
                &&& from <= to
                &&& to <= self.end
            },
            FlashRequest::Write { address, offset, len } => {
                &&& self.start <= address
                &&& address + len <= self.end
                &&& offset + len <= self.erase_size
            },
        }
    }

    /// The request that reads the page at the relative `address` into the
    /// whole page buffer.
    pub open spec fn read_request(self, address: int) -> FlashRequest {
        FlashRequest::Read {
            address: (self.start + address) as u32,
            offset: 0,
            len: self.erase_size,
        }
    }

    /// The request that erases the page at the relative `address`.
    pub open spec fn erase_request(self, address: int) -> FlashRequest {
        FlashRequest::Erase {
            from: (self.start + address) as u32,
            to: (self.start + address + self.erase_size) as u32,
        }
    }

    /// The `step`-th request of a write of `len` buffered bytes at the
    /// relative `address`: first the page's bytes before the data are read
    /// into the buffer, then those after it, then the page is erased, then
    /// the buffer is programmed chunk by chunk.
    pub open spec fn write_request(self, address: int, len: int, step: int) -> FlashRequest {
        let offset = address % (self.erase_size as int);
        let page = self.start + address - offset;
        if step == 0 {
            FlashRequest::Read { address: page as u32, offset: 0, len: offset as usize }
        } else if step == 1 {
            FlashRequest::Read {
                address: (self.start + address + len) as u32,
                offset: (offset + len) as usize,
                len: (self.erase_size - offset - len) as usize,
            }
        } else if step == 2 {
            FlashRequest::Erase { from: page as u32, to: (page + self.erase_size) as u32 }
        } else {
            let at = (step - 3) * WRITE_CHUNK;
            FlashRequest::Write {
                address: (page + at) as u32,
                offset: at as usize,
                len: if self.erase_size - at < WRITE_CHUNK {
                    (self.erase_size - at) as usize
                } else {
                    WRITE_CHUNK
                },
            }
        }
    }

    /// The number of requests that `op` takes; none when `op` reaches
    /// outside the partition.
    pub open spec fn steps(self, op: PendingOperation) -> int {
        match op {
            PendingOperation::Read(page) => if self.admits_page(page * self.erase_size) {
                1
            } else {
                0
            },
            PendingOperation::Write(address, len) => if self.admits_write(
                address as int,
                len as int,
            ) {
                3 + self.chunks()
            } else {
                0
            },
            PendingOperation::Delete(page) => if self.admits_page(page * self.erase_size) {
                1
            } else {
                0
            },
        }
    }

    /// The `step`-th request of `op`.
    pub open spec fn request(self, op: PendingOperation, step: int) -> FlashRequest {
        match op {
            PendingOperation::Read(page) => self.read_request(page * self.erase_size),
            PendingOperation::Write(address, len) => self.write_request(
                address as int,
                len as int,
                step,
            ),
            PendingOperation::Delete(page) => self.erase_request(page * self.erase_size),
        }
    }
}

/// `buffer` with the bytes from `offset` on replaced by `data`.
pub open spec fn overlay(buffer: Seq<u8>, offset: int, data: Seq<u8>) -> Seq<u8> {
    Seq::new(
        buffer.len(),
        |j: int|
            if offset <= j < offset + data.len() {
                data[j - offset]
            } else {
                buffer[j]
            },
    )
}

/// The offset of an address in its page does not exceed the address.
pub proof fn lemma_offset_in_page(address: int, erase_size: int)
    requires
        0 <= address,
        0 < erase_size,
    ensures
        0 <= address % erase_size <= address,
        address % erase_size < erase_size,
{
    lemma_fundamental_div_mod(address, erase_size);
    assert(0 <= erase_size * (address / erase_size)) by (nonlinear_arith)
        requires
            0 <= address,
            0 < erase_size,
            address == erase_size * (address / erase_size) + address % erase_size,
            0 <= address % erase_size < erase_size,
    ;
}

/// In a valid partition a page lies inside exactly when its number is below
/// the page count, and the pages fill the partition.
pub proof fn lemma_page_admitted(region: Region, page: int)
    requires
        region.valid(),
        0 <= page,
    ensures
        region.admits_page(page * region.erase_size) <==> page < region.pages(),
        region.pages() * region.erase_size == region.size(),
        region.pages() >= 1,
{
    let e = region.erase_size as int;
    lemma_fundamental_div_mod(region.size(), e);
    assert(region.pages() * e == region.size()) by (nonlinear_arith)
        requires
            region.size() == e * region.pages() + 0,
    ;
    if page < region.pages() {
        lemma_mul_inequality(page + 1, region.pages(), e);
        assert((page + 1) * e == page * e + e) by (nonlinear_arith);
    } else {
        lemma_mul_inequality(region.pages(), page, e);
    }
    assert(0 <= page * e) by (nonlinear_arith)
        requires
            0 <= page,
            0 < e,
    ;
    if region.pages() < 1 {
        lemma_mul_inequality(region.pages(), 0, e);
    }
}

/// A copy of `buffer` with the bytes from `offset` on replaced by `data`.
fn overlaid(buffer: &Vec<u8>, offset: usize, data: &[u8]) -> (merged: Vec<u8>)
    requires
        offset + data@.len() <= buffer@.len(),
    ensures
        merged@ == overlay(buffer@, offset as int, data@),
{
    let mut merged: Vec<u8> = Vec::with_capacity(buffer.len());
    let mut j: usize = 0;
    while j < buffer.len()
        invariant
            j <= buffer@.len(),
            offset + data@.len() <= buffer@.len(),
            merged@.len() == j,
            forall|k: int|
                0 <= k < j ==> merged@[k] == if offset <= k < offset + data@.len() {
                    data@[k - offset]
                } else {
                    buffer@[k]
                },
        decreases buffer@.len() - j,
    {
        if offset <= j && j - offset < data.len() {
            merged.push(data[j - offset]);
        } else {
            merged.push(buffer[j]);
        }
        j += 1;
    }
    assert(merged@ =~= overlay(buffer@, offset as int, data@));
    merged
}

/// What a flash adapter holds, as contracts see it.
pub struct DeviceModel {
    /// The partition the adapter serves.
    pub region: Region,
    /// The operation the engine asked for and nobody has performed yet.
    pub pending: Option<PendingOperation>,
    /// The contents of the page buffer.
    pub buffer: Seq<u8>,
}

impl DeviceModel {
    /// The partition is valid and the buffer holds exactly one page.
    pub open spec fn wf(self) -> bool {
        self.region.valid() && self.buffer.len() == self.region.erase_size
    }
}

/// The adapter between the key-value engine and a raw flash device: the
/// partition's bounds, the slot for the engine's outstanding request, and
/// the one page buffer through which all data passes.
pub struct FlashDevice {
    start: usize,
    end: usize,
    erase_size: usize,
    pending: Option<PendingOperation>,
    op_buf: Vec<u8>,
}

impl View for FlashDevice {
    type V = DeviceModel;

    closed spec fn view(&self) -> DeviceModel {
        DeviceModel {
            region: Region { start: self.start, end: self.end, erase_size: self.erase_size },
            pending: self.pending,
            buffer: self.op_buf@,
        }
    }
}

impl FlashDevice {
    #[verifier::type_invariant]
    spec fn inv(self) -> bool {
        self@.wf()
    }

    /// Whether the bounds describe a partition that an adapter can serve.
    pub fn valid_config(config_start: usize, config_end: usize, erase_size: usize) -> (ok: bool)
        ensures
            ok == (Region { start: config_start, end: config_end, erase_size }).valid(),
    {
        erase_size > 0 && config_start < config_end && (config_end - config_start) % erase_size
            == 0 && config_start % erase_size == 0 && config_end <= u32::MAX as usize
    }

    /// An adapter for the partition from `config_start` up to `config_end`,
    /// with nothing pending and an erased page in its buffer.
    pub fn new(config_start: usize, config_end: usize, erase_size: usize) -> (device: Self)
        requires
            (Region { start: config_start, end: config_end, erase_size }).valid(),
        ensures
            device@.region == (Region { start: config_start, end: config_end, erase_size }),
            device@.pending == None::<PendingOperation>,
            device@.buffer == Seq::new(erase_size as nat, |i: int| 0xFFu8),
            device@.wf(),
    {
        let op_buf = vec![0xFFu8; erase_size];
        assert(op_buf@ =~= Seq::new(erase_size as nat, |i: int| 0xFFu8));
        FlashDevice { start: config_start, end: config_end, erase_size, pending: None, op_buf }
    }

    /// The absolute address of the partition's first byte.
    pub fn start(&self) -> (start: usize)
        ensures
            start == self@.region.start,
            self@.wf(),
    {
        proof {
            use_type_invariant(self);
        }
        self.start
    }

    /// The absolute address just past the partition's last byte.
    pub fn end(&self) -> (end: usize)
        ensures
            end == self@.region.end,
            self@.wf(),
    {
        proof {
            use_type_invariant(self);
        }
        self.end
    }

    /// The size of a page.
    pub fn erase_size(&self) -> (size: usize)
        ensures
            size == self@.region.erase_size,
            self@.wf(),
    {
        proof {
            use_type_invariant(self);
        }
        self.erase_size
    }

    /// The number of bytes in the partition.
    pub fn flash_size(&self) -> (size: usize)
        ensures
            size == self@.region.size(),
            self@.wf(),
    {
        proof {
            use_type_invariant(self);
        }
        self.end - self.start
    }

    /// The number of pages in the partition.
    pub fn page_count(&self) -> (pages: usize)
        ensures
            pages == self@.region.pages(),
            pages >= 1,
            self@.wf(),
    {
        proof {
            use_type_invariant(self);
            let size = self.end - self.start;
            lemma_fundamental_div_mod(size, self.erase_size as int);
            if size / (self.erase_size as int) < 1 {
                assert(size / (self.erase_size as int) <= 0);
                lemma_mul_inequality(size / (self.erase_size as int), 0, self.erase_size as int);
            }
        }
        (self.end - self.start) / self.erase_size
    }

    /// The operation that waits to be performed, if any.
    pub fn pending(&self) -> (op: Option<PendingOperation>)
        ensures
            op == self@.pending,
    {
        self.pending
    }

    /// The request that reads the page at the relative `address` into the
    /// page buffer; none when that page reaches outside the partition.
    pub fn read(&self, address: usize) -> (request: Option<FlashRequest>)
        ensures
            request == if self@.region.admits_page(address as int) {
                Some(self@.region.read_request(address as int))
            } else {
                None
            },
            request matches Some(r) ==> self@.region.contains(r),
    {
        proof {
            use_type_invariant(self);
        }
        let size = self.end - self.start;
        if address <= size && size - address >= self.erase_size {
            Some(
                FlashRequest::Read {
                    address: (self.start + address) as u32,
                    offset: 0,
                    len: self.erase_size,
                },
            )
        } else {
            None
        }
    }

    /// The request that erases the page at the relative `address`; none
    /// when that page reaches outside the partition.
    pub fn erase(&self, address: usize) -> (request: Option<FlashRequest>)
        ensures
            request == if self@.region.admits_page(address as int) {
                Some(self@.region.erase_request(address as int))
            } else {
                None
            },
            request matches Some(r) ==> self@.region.contains(r),
    {
        proof {
            use_type_invariant(self);
        }
        let size = self.end - self.start;
        if address <= size && size - address >= self.erase_size {
            let from = self.start + address;
            Some(FlashRequest::Erase { from: from as u32, to: (from + self.erase_size) as u32 })
        } else {
            None
        }
    }

    /// The `step`-th request of writing the `len` bytes that the buffer
    /// holds for the relative `address`; none when the data does not lie
    /// within one page of the partition, or when the write has no such step.
    pub fn write(&self, address: usize, len: usize, step: usize) -> (request: Option<FlashRequest>)
        ensures
            request == if self@.region.admits_write(address as int, len as int) && step < 3
                + self@.region.chunks() {
                Some(self@.region.write_request(address as int, len as int, step as int))
            } else {
                None
            },
            request matches Some(r) ==> self@.region.contains(r),
    {
        proof {
            use_type_invariant(self);
        }
        let size = self.end - self.start;
        let offset = address % self.erase_size;
        if len > self.erase_size - offset {
            return None;
        }
        proof {
            lemma_offset_in_page(address as int, self.erase_size as int);
        }
        let page = address - offset;
        if page > size || size - page < self.erase_size {
            return None;
        }
        let chunks = (self.erase_size - 1) / WRITE_CHUNK + 1;
        assert(chunks == self@.region.chunks());
        let base = self.start + page;
        if step == 0 {
            Some(FlashRequest::Read { address: base as u32, offset: 0, len: offset })
        } else if step == 1 {
            Some(
                FlashRequest::Read {
                    address: (self.start + address + len) as u32,
                    offset: offset + len,
                    len: self.erase_size - offset - len,
                },
            )
        } else if step == 2 {
            Some(FlashRequest::Erase { from: base as u32, to: (base + self.erase_size) as u32 })
        } else if step - 3 < chunks {
            let at = (step - 3) * WRITE_CHUNK;
            let rest = self.erase_size - at;
            Some(
                FlashRequest::Write {
                    address: (base + at) as u32,
                    offset: at,
                    len: if rest < WRITE_CHUNK {
                        rest
                    } else {
                        WRITE_CHUNK
                    },
                },
            )
        } else {
            None
        }
    }

    /// The number of requests that `op` takes; none when `op` reaches
    /// outside the partition.
    pub fn steps(&self, op: PendingOperation) -> (count: usize)
        ensures
            count == self@.region.steps(op),
    {
        proof {
            use_type_invariant(self);
        }
        let size = self.end - self.start;
        match op {
            PendingOperation::Read(page) | PendingOperation::Delete(page) => {
                proof {
                    lemma_page_admitted(self@.region, page as int);
                }
                if page < size / self.erase_size {
                    1
                } else {
                    0
                }
            },
            PendingOperation::Write(address, len) => {
                let offset = address % self.erase_size;
                proof {
                    lemma_offset_in_page(address as int, self.erase_size as int);
                }
                let page = address - offset;
                if len <= self.erase_size - offset && page <= size && size - page
                    >= self.erase_size {
                    (self.erase_size - 1) / WRITE_CHUNK + 4
                } else {
                    0
                }
            },
        }
    }

    /// The `step`-th request of `op`; none when `op` has no such step.
    pub fn request(&self, op: PendingOperation, step: usize) -> (request: Option<FlashRequest>)
        ensures
            request == if step < self@.region.steps(op) {
                Some(self@.region.request(op, step as int))
            } else {
                None
            },
            request matches Some(r) ==> self@.region.contains(r),
    {
        proof {
            use_type_invariant(self);
        }
        let size = self.end - self.start;
        match op {
            PendingOperation::Read(page) => {
                proof {
                    lemma_page_admitted(self@.region, page as int);
                }
                if step == 0 && page < size / self.erase_size {
                    self.read(page * self.erase_size)
                } else {
                    None
                }
            },
            PendingOperation::Write(address, len) => self.write(address, len, step),
            PendingOperation::Delete(page) => {
                proof {
                    lemma_page_admitted(self@.region, page as int);
                }
                if step == 0 && page < size / self.erase_size {
                    self.erase(page * self.erase_size)
                } else {
                    None
                }
            },
        }
    }

    /// Empties the slot for the engine's outstanding request and hands out
    /// what it held.
    pub fn take_pending(&mut self) -> (op: Option<PendingOperation>)
        ensures
            op == old(self)@.pending,
            final(self)@ == (DeviceModel { pending: None, ..old(self)@ }),
    {
        proof {
            use_type_invariant(&*self);
        }
        let op = self.pending;
        self.pending = None;
        op
    }

    /// The engine asks for the page `region_number`: the request is noted
    /// and the engine is told to come back.
    pub fn read_region(&mut self, region_number: usize) -> (code: ErrorCode)
        ensures
            code == ErrorCode::ReadNotReady(region_number),
            final(self)@ == (DeviceModel {
                pending: Some(PendingOperation::Read(region_number)),
                ..old(self)@
            }),
    {
        proof {
            use_type_invariant(&*self);
        }
        self.pending = Some(PendingOperation::Read(region_number));
        ErrorCode::ReadNotReady(region_number)
    }

    /// The engine asks for the page `region_number` to be erased: the
    /// request is noted and the engine is told to come back.
    pub fn erase_region(&mut self, region_number: usize) -> (code: ErrorCode)
        ensures
            code == ErrorCode::EraseNotReady(region_number),
            final(self)@ == (DeviceModel {
                pending: Some(PendingOperation::Delete(region_number)),
                ..old(self)@
            }),
    {
        proof {
            use_type_invariant(&*self);
        }
        self.pending = Some(PendingOperation::Delete(region_number));
        ErrorCode::EraseNotReady(region_number)
    }

    /// The engine asks for `buf` to be programmed at the relative
    /// `address`: the bytes are placed in the page buffer where they belong
    /// in their page, the request is noted and the engine is told to come
    /// back.
    pub fn buffer_write(&mut self, address: usize, buf: &[u8]) -> (code: ErrorCode)
        requires
            address % old(self)@.region.erase_size + buf@.len() <= old(self)@.region.erase_size,
        ensures
            code == ErrorCode::WriteNotReady(address),
            final(self)@ == (DeviceModel {
                pending: Some(PendingOperation::Write(address, buf@.len() as usize)),
                buffer: overlay(
                    old(self)@.buffer,
                    (address % old(self)@.region.erase_size) as int,
                    buf@,
                ),
                ..old(self)@
            }),
    {
        proof {
            use_type_invariant(&*self);
        }
        let offset = address % self.erase_size;
        self.load(offset, buf);
        self.pending = Some(PendingOperation::Write(address, buf.len()));
        ErrorCode::WriteNotReady(address)
    }

    /// Places `data` in the page buffer at `offset`.
    pub fn load(&mut self, offset: usize, data: &[u8])
        requires
            offset + data@.len() <= old(self)@.buffer.len(),
        ensures
            final(self)@ == (DeviceModel {
                buffer: overlay(old(self)@.buffer, offset as int, data@),
                ..old(self)@
            }),
    {
        proof {
            use_type_invariant(&*self);
        }
        self.op_buf = overlaid(&self.op_buf, offset, data);
    }

    /// The page buffer.
    pub fn op_buf(&self) -> (bytes: &[u8])
        ensures
            bytes@ == self@.buffer,
            self@.wf(),
    {
        proof {
            use_type_invariant(self);
        }
        self.op_buf.as_slice()
    }
}

} // verus!
