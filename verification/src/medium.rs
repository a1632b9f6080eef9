//! What the adapter's requests do to a flash device, and what a whole
//! operation of the engine achieves on it.
//!
//! Flash is modelled as its bytes, indexed by absolute address. Reading
//! copies bytes into the page buffer, erasing sets bytes to `0xFF`, and
//! programming can only clear bits: a programmed byte becomes the conjunction
//! of what it was and what is written.

use vstd::prelude::*;
use crate::hw::{
    lemma_offset_in_page, lemma_page_admitted, overlay, FlashRequest, PendingOperation, Region, WRITE_CHUNK,
};

verus! {

/// A flash device and the adapter's page buffer.
pub struct Medium {
    /// The bytes of the device, by absolute address.
    pub flash: Seq<u8>,
    /// The bytes of the page buffer.
    pub buffer: Seq<u8>,
}

impl Medium {
    /// The device reaches to the end of the partition, and the buffer holds
    /// one page.
    pub open spec fn fits(self, region: Region) -> bool {
        self.flash.len() >= region.end && self.buffer.len() == region.erase_size
    }

    /// The medium after one request was performed.
    pub open spec fn perform(self, request: FlashRequest) -> Medium {
        match request {
            FlashRequest::Read { address, offset, len } => Medium {
                flash: self.flash,
                buffer: overlay(
                    self.buffer,
                    offset as int,
                    self.flash.subrange(address as int, address + len),
                ),
            },
            FlashRequest::Erase { from, to } => Medium {
                flash: Seq::new(
                    self.flash.len(),
                    |i: int|
                        if from <= i < to {
                            0xFFu8
                        } else {
                            self.flash[i]
                        },
                ),
                buffer: self.buffer,
            },
            FlashRequest::Write { address, offset, len } => Medium {
                flash: Seq::new(
                    self.flash.len(),
                    |i: int|
                        if address <= i < address + len {
                            self.flash[i] & self.buffer[offset + i - address]
                        } else {
                            self.flash[i]
                        },
                ),
                buffer: self.buffer,
            },
        }
    }

    /// The medium after the first `count` requests of `op` were performed.
    pub open spec fn perform_all(self, region: Region, op: PendingOperation, count: nat) -> Medium
        decreases count,
    {
        if count == 0 {
            self
        } else {
            self.perform_all(region, op, (count - 1) as nat).perform(
                region.request(op, count - 1),
            )
        }
    }

    /// The medium after every request of `op` was performed.
    pub open spec fn performed(self, region: Region, op: PendingOperation) -> Medium {
        self.perform_all(region, op, region.steps(op) as nat)
    }
}

/// The bytes of the page that starts at the absolute address `page`.
pub open spec fn page_at(flash: Seq<u8>, region: Region, page: int) -> Seq<u8> {
    flash.subrange(page, page + region.erase_size)
}

/// Whether two devices hold the same bytes everywhere but in the page that
/// starts at the absolute address `page`.
pub open spec fn same_elsewhere(before: Seq<u8>, after: Seq<u8>, region: Region, page: int) -> bool {
    &&& after.len() == before.len()
    &&& forall|i: int|
        0 <= i < before.len() && !(page <= i < page + region.erase_size) ==> after[i]
            == before[i]
}

/// A page read brings the page into the buffer and leaves the device as it
/// is.
pub proof fn lemma_read_fills_buffer(region: Region, medium: Medium, number: usize)
    requires
        region.valid(),
        medium.fits(region),
        number < region.pages(),
    ensures
        ({
            let after = medium.performed(region, PendingOperation::Read(number));
            &&& after.flash == medium.flash
            &&& after.buffer == page_at(
                medium.flash,
                region,
                region.start + number * region.erase_size,
            )
        }),
{
    lemma_page_admitted(region, number as int);
    reveal_with_fuel(Medium::perform_all, 2);
    let after = medium.performed(region, PendingOperation::Read(number));
    assert(after.buffer =~= page_at(
        medium.flash,
        region,
        region.start + number * region.erase_size,
    ));
}

/// A page erase sets every byte of the page to `0xFF` and leaves the rest
/// of the device and the buffer as they are.
pub proof fn lemma_erase_clears_page(region: Region, medium: Medium, number: usize)
    requires
        region.valid(),
        medium.fits(region),
        number < region.pages(),
    ensures
        ({
            let page = region.start + number * region.erase_size;
            let after = medium.performed(region, PendingOperation::Delete(number));
            &&& after.buffer == medium.buffer
            &&& same_elsewhere(medium.flash, after.flash, region, page)
            &&& page_at(after.flash, region, page) == Seq::new(
                region.erase_size as nat,
                |i: int| 0xFFu8,
            )
        }),
{
    lemma_page_admitted(region, number as int);
    reveal_with_fuel(Medium::perform_all, 2);
    let page = region.start + number * region.erase_size;
    let after = medium.performed(region, PendingOperation::Delete(number));
    assert(page_at(after.flash, region, page) =~= Seq::new(
        region.erase_size as nat,
        |i: int| 0xFFu8,
    ));
}

/// The page that a write of the `len` buffered bytes for the relative
/// `address` is to leave behind: the page as the device holds it, with the
/// buffered bytes in their place.
pub open spec fn merged_page(region: Region, medium: Medium, address: int, len: int) -> Seq<u8> {
    let offset = address % (region.erase_size as int);
    let page = region.start + address - offset;
    overlay(
        page_at(medium.flash, region, page),
        offset,
        medium.buffer.subrange(offset, offset + len),
    )
}

/// How far a write has come once the page was read around the data and
/// erased and `done` chunks were programmed: the buffer holds the merged
/// page, the device holds its first chunks, the rest of the page is erased,
/// and no other byte of the device has changed.
pub open spec fn write_progress(
    region: Region,
    before: Medium,
    now: Medium,
    address: int,
    len: int,
    done: int,
) -> bool {
    let offset = address % (region.erase_size as int);
    let page = region.start + address - offset;
    let target = merged_page(region, before, address, len);
    &&& now.buffer == target
    &&& same_elsewhere(before.flash, now.flash, region, page)
    &&& forall|i: int|
        0 <= i < region.erase_size ==> #[trigger] now.flash[page + i] == if i < done
            * WRITE_CHUNK {
            target[i]
        } else {
            0xFFu8
        }
}

/// The steps of a write, one chunk after the other.
proof fn lemma_write_chunks(region: Region, medium: Medium, address: usize, len: usize, done: nat)
    requires
        region.valid(),
        medium.fits(region),
        region.admits_write(address as int, len as int),
        done <= region.chunks(),
    ensures
        write_progress(
            region,
            medium,
            medium.perform_all(region, PendingOperation::Write(address, len), 3 + done),
            address as int,
            len as int,
            done as int,
        ),
    decreases done,
{
    let op = PendingOperation::Write(address, len);
    let size = region.erase_size as int;
    let offset = address as int % size;
    let page = region.start + address - offset;
    let target = merged_page(region, medium, address as int, len as int);
    lemma_offset_in_page(address as int, size);
    assert(region.start <= page && page + size <= region.end);
    if done == 0 {
        reveal_with_fuel(Medium::perform_all, 4);
        let first = medium.perform(region.request(op, 0));
        let second = first.perform(region.request(op, 1));
        let third = second.perform(region.request(op, 2));
        assert(third == medium.perform_all(region, op, 3));
        assert(first.buffer =~= overlay(
            medium.buffer,
            0,
            medium.flash.subrange(page, page + offset),
        ));
        assert(second.buffer =~= target);
        assert(third.buffer == target);
    } else {
        let earlier = medium.perform_all(region, op, (3 + done - 1) as nat);
        lemma_write_chunks(region, medium, address, len, (done - 1) as nat);
        let request = region.request(op, 3 + done - 1);
        let now = medium.perform_all(region, op, 3 + done);
        assert(now == earlier.perform(request));
        let at = (done - 1) * WRITE_CHUNK;
        assert(at < size);
        assert(request matches FlashRequest::Write { address: a, offset: o, len: l } && a == page
            + at && o == at && l == if size - at < WRITE_CHUNK {
            size - at
        } else {
            WRITE_CHUNK as int
        });
        assert(forall|b: u8| 0xFFu8 & b == b) by (bit_vector);
        assert forall|i: int| 0 <= i < size implies #[trigger] now.flash[page + i] == if i < done
            * WRITE_CHUNK {
            target[i]
        } else {
            0xFFu8
        } by {
            assert(earlier.flash[page + i] == if i < (done - 1) * WRITE_CHUNK {
                target[i]
            } else {
                0xFFu8
            });
        }
    }
}

/// A write leaves the page with the buffered bytes in their place and every
/// other byte of the page as it was; no byte outside the page changes; and
/// the buffer ends up holding the page.
pub proof fn lemma_write_merges_page(region: Region, medium: Medium, address: usize, len: usize)
    requires
        region.valid(),
        medium.fits(region),
        region.admits_write(address as int, len as int),
    ensures
        ({
            let offset = address as int % (region.erase_size as int);
            let page = region.start + address - offset;
            let after = medium.performed(region, PendingOperation::Write(address, len));
            &&& page_at(after.flash, region, page) == merged_page(
                region,
                medium,
                address as int,
                len as int,
            )
            &&& same_elsewhere(medium.flash, after.flash, region, page)
            &&& after.buffer == page_at(after.flash, region, page)
            &&& after.flash.subrange(region.start + address, region.start + address + len)
                == medium.buffer.subrange(offset, offset + len)
        }),
{
    let size = region.erase_size as int;
    let offset = address as int % size;
    let page = region.start + address - offset;
    let chunks = region.chunks();
    lemma_offset_in_page(address as int, size);
    lemma_write_chunks(region, medium, address, len, chunks as nat);
    let after = medium.performed(region, PendingOperation::Write(address, len));
    let target = merged_page(region, medium, address as int, len as int);
    assert(chunks * WRITE_CHUNK >= size);
    assert forall|i: int| 0 <= i < size implies page_at(after.flash, region, page)[i]
        == target[i] by {
        assert(after.flash[page + i] == target[i]);
    }
    assert(page_at(after.flash, region, page) =~= target);
    let written = after.flash.subrange(region.start + address, region.start + address + len);
    let wanted = medium.buffer.subrange(offset, offset + len);
    assert forall|j: int| 0 <= j < len implies #[trigger] written[j] == wanted[j] by {
        assert(after.flash[page + (offset + j)] == target[offset + j]);
    }
    assert(written =~= wanted);
}

/// What the engine asks to be programmed reaches the device: once the
/// adapter has placed `data` in its buffer for the relative `address` and
/// the write was performed, the device holds `data` at that address, the
/// other bytes of the page are what they were, and so is every byte outside
/// the page.
pub proof fn lemma_buffered_write_lands(
    region: Region,
    medium: Medium,
    address: usize,
    data: Seq<u8>,
)
    requires
        region.valid(),
        medium.fits(region),
        region.admits_write(address as int, data.len() as int),
    ensures
        ({
            let offset = address as int % (region.erase_size as int);
            let page = region.start + address - offset;
            let buffered = Medium {
                flash: medium.flash,
                buffer: overlay(medium.buffer, offset, data),
            };
            let after = buffered.performed(
                region,
                PendingOperation::Write(address, data.len() as usize),
            );
            &&& after.flash.subrange(region.start + address, region.start + address + data.len())
                == data
            &&& page_at(after.flash, region, page) == overlay(
                page_at(medium.flash, region, page),
                offset,
                data,
            )
            &&& same_elsewhere(medium.flash, after.flash, region, page)
        }),
{
    let size = region.erase_size as int;
    let offset = address as int % size;
    let buffered = Medium { flash: medium.flash, buffer: overlay(medium.buffer, offset, data) };
    lemma_offset_in_page(address as int, size);
    lemma_write_merges_page(region, buffered, address, data.len() as usize);
    assert(buffered.buffer.subrange(offset, offset + data.len()) =~= data);
}

} // verus!
