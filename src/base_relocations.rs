use scroll::Pread;
use vstd::prelude::*;

use crate::error::HyperlightError;
use crate::shared_mem::u32_at;

verus! {

/// Bytes in one relocation entry.
pub const BASE_RELOCATION_SIZE: usize = 2;
/// Bytes in the header of a relocation block.
pub const BLOCK_HEADER_SIZE: usize = 8;

#[verifier::external_type_specification]
#[verifier::external_body]
pub struct ExScrollError(scroll::Error);

#[verifier::external_type_specification]
#[verifier::external_body]
pub struct ExGoblinError(goblin::error::Error);

/// The `n` bytes of `bytes` from `offset` on.
/// Relies on scroll's `Pread::pread_with` for `&[u8]` with a length: it
/// fails when `offset` is not inside `bytes` or fewer than `n` bytes follow
/// it, and otherwise hands back exactly those bytes.
#[verifier::external_body]
fn pread_bytes(bytes: &[u8], offset: usize, n: usize) -> (r: Result<Vec<u8>, scroll::Error>)
    ensures
        (offset < bytes@.len() && offset + n <= bytes@.len()) <==> r is Ok,
        r is Ok ==> r->Ok_0@ == bytes@.subrange(offset as int, offset + n),
{
    bytes.pread_with::<&[u8]>(offset, n).map(|s| s.to_vec())
}

/// The virtual address and size of the data directory at `*offset`, as two
/// little-endian `u32`; `*offset` moves past it on success.
/// Relies on goblin's `DataDirectory::parse`, a scroll read of two
/// little-endian `u32` fields that fails, leaving the offset alone, unless
/// the eight bytes lie inside `bytes`.
#[verifier::external_body]
fn parse_data_directory(bytes: &[u8], offset: &mut usize) -> (r: Result<(u32, u32), goblin::error::Error>)
    ensures
        r is Ok <==> *old(offset) < bytes@.len() && *old(offset) + 8 <= bytes@.len(),
        r is Ok ==> r->Ok_0 == (u32_at(bytes@, *old(offset) as int), u32_at(bytes@, *old(offset) + 4))
            && *final(offset) == *old(offset) + 8,
        r is Err ==> *final(offset) == *old(offset),
{
    goblin::pe::data_directories::DataDirectory::parse(bytes, offset).map(|d| (d.virtual_address, d.size))
}

/// A base relocation.
#[derive(Debug, Clone, Copy, PartialEq, Eq, Structural)]
pub struct BaseRelocation {
    /// The kind of relocation, from the upper four bits of the entry.
    pub typ: u8,
    /// The offset to add to the page base RVA, from the lower twelve bits.
    pub page_offset: u16,
    /// The base RVA of the page that the entry belongs to.
    pub page_base_rva: u32,
}

/// The entry at `offset`: a little-endian 16-bit word whose upper four bits
/// are the kind and whose lower twelve bits are the page offset.
pub open spec fn relocation_at(bytes: Seq<u8>, offset: int, page_base_rva: u32) -> BaseRelocation {
    let word = bytes[offset] as int + bytes[offset + 1] as int * 256;
    BaseRelocation {
        typ: (word / 4096) as u8,
        page_offset: (word % 4096) as u16,
        page_base_rva,
    }
}

/// The `n` entries from `offset` on.
pub open spec fn relocations_at(bytes: Seq<u8>, offset: int, n: int, page_base_rva: u32) -> Seq<BaseRelocation> {
    Seq::new(n as nat, |i: int| relocation_at(bytes, offset + 2 * i, page_base_rva))
}

/// The entries of relocation blocks from `offset` on that span `remaining`
/// bytes of the table; `None` when a block header or its entries are not in
/// `payload`, or a block is smaller than its header.
pub open spec fn relocation_blocks(payload: Seq<u8>, offset: int, remaining: int) -> Option<Seq<BaseRelocation>>
    decreases remaining,
{
    if remaining <= 0 {
        Some(Seq::empty())
    } else if !(0 <= offset < payload.len() && offset + 8 <= payload.len()) {
        None
    } else {
        let va = u32_at(payload, offset);
        let size = u32_at(payload, offset + 4) as int;
        let n = (size - 8) / 2;
        if size < 8 {
            None
        } else if !(offset + 8 < payload.len() && offset + 8 + 2 * n <= payload.len()) {
            None
        } else {
            let here = relocations_at(payload, offset + 8, n, va);
            if remaining <= size {
                Some(here)
            } else {
                match relocation_blocks(payload, offset + size, remaining - size) {
                    Some(rest) => Some(here + rest),
                    None => None,
                }
            }
        }
    }
}

/// Reads the entries of one relocation block, in order.
pub struct BaseRelocations {
    offset: usize,
    relocations: Vec<u8>,
}

impl BaseRelocations {
    /// Bytes of entries still to read.
    pub closed spec fn rest(&self) -> Seq<u8> {
        self.relocations@.subrange(self.offset as int, self.relocations@.len() as int)
    }

    pub closed spec fn wf(&self) -> bool {
        self.offset <= self.relocations@.len()
    }

    /// The `number` entries at `offset` in `bytes`; fails with
    /// `PeFileMalformed` when `offset` is not inside `bytes` or the entries
    /// run past its end.
    pub fn parse(bytes: &[u8], offset: usize, number: usize) -> (r: Result<BaseRelocations, HyperlightError>)
        ensures
            r is Ok <==> offset < bytes@.len() && offset + number * BASE_RELOCATION_SIZE <= bytes@.len(),
            r is Ok ==> r->Ok_0.wf()
                && r->Ok_0.rest() == bytes@.subrange(offset as int, offset + number * BASE_RELOCATION_SIZE),
            r is Err ==> r->Err_0 == HyperlightError::PeFileMalformed(offset),
    {
        let _len = bytes.len();
        if number > usize::MAX / BASE_RELOCATION_SIZE {
            return Err(HyperlightError::PeFileMalformed(offset));
        }
        let n = number * BASE_RELOCATION_SIZE;
        if n > usize::MAX - offset {
            return Err(HyperlightError::PeFileMalformed(offset));
        }
        match pread_bytes(bytes, offset, n) {
            Ok(relocations) => {
                let r = BaseRelocations { offset: 0, relocations };
                assert(r.rest() =~= r.relocations@);
                Ok(r)
            },
            Err(_) => Err(HyperlightError::PeFileMalformed(offset)),
        }
    }

    /// The next entry, with a page base RVA of zero, or `None` when fewer
    /// than two bytes are left.
    pub fn next(&mut self) -> (r: Option<BaseRelocation>)
        requires
            old(self).wf(),
        ensures
            final(self).wf(),
            old(self).rest().len() < 2 ==> r is None && final(self).rest() == old(self).rest(),
            old(self).rest().len() >= 2 ==> r == Some(relocation_at(old(self).rest(), 0, 0))
                && final(self).rest() == old(self).rest().subrange(2, old(self).rest().len() as int),
    {
        if self.offset >= self.relocations.len() || self.relocations.len() - self.offset < 2 {
            return None;
        }
        let lo = self.relocations[self.offset] as u16;
        let hi = self.relocations[self.offset + 1] as u16;
        let word: u16 = lo + hi * 256;
        let typ = (word / 4096) as u8;
        let page_offset = word % 4096;
        self.offset = self.offset + 2;
        assert(self.rest() =~= old(self).rest().subrange(2, old(self).rest().len() as int));
        Some(BaseRelocation { typ, page_offset, page_base_rva: 0 })
    }
}

/// The entries of the relocation blocks in `payload` from `table_offset`
/// on, covering `table_size` bytes, each with the page base RVA of its
/// block; fails with `PeFileMalformed` where `relocation_blocks` is `None`.
pub fn read_relocation_blocks(payload: &[u8], table_offset: usize, table_size: usize)
    -> (r: Result<Vec<BaseRelocation>, HyperlightError>)
    ensures
        r is Ok <==> relocation_blocks(payload@, table_offset as int, table_size as int) is Some,
        r is Ok ==> r->Ok_0@ == relocation_blocks(payload@, table_offset as int, table_size as int)->Some_0,
{
    let payload_len = payload.len();
    let mut base_relocations: Vec<BaseRelocation> = Vec::new();
    let mut next_block_offset = table_offset;
    let mut size_processed: usize = 0;
    let ghost whole = relocation_blocks(payload@, table_offset as int, table_size as int);
    while size_processed < table_size
        invariant
            size_processed <= table_size,
            payload@.len() == payload_len,
            whole == relocation_blocks(payload@, table_offset as int, table_size as int),
            match relocation_blocks(payload@, next_block_offset as int, table_size - size_processed) {
                Some(rest) => whole == Some(base_relocations@ + rest),
                None => whole is None,
            },
        decreases table_size - size_processed,
    {
        let start = next_block_offset;
        let ghost rem = table_size - size_processed;
        let (page_virtual_address, block_size) = match parse_data_directory(payload, &mut next_block_offset) {
            Ok(d) => d,
            Err(_) => return Err(HyperlightError::PeFileMalformed(next_block_offset)),
        };
        let block_size = block_size as usize;
        if block_size < BLOCK_HEADER_SIZE {
            proof {
                assert(relocation_blocks(payload@, start as int, table_size - size_processed) is None);
            }
            return Err(HyperlightError::PeFileMalformed(start));
        }
        let reloc_num = (block_size - BLOCK_HEADER_SIZE) / BASE_RELOCATION_SIZE;
        let mut relocations = match BaseRelocations::parse(payload, next_block_offset, reloc_num) {
            Ok(r) => r,
            Err(e) => return Err(e),
        };
        let ghost entries = relocations.rest();
        let ghost before = base_relocations@;
        let mut i: usize = 0;
        while i < reloc_num
            invariant
                relocations.wf(),
                i <= reloc_num,
                entries.len() == 2 * reloc_num,
                relocations.rest() == entries.subrange(2 * i as int, entries.len() as int),
                base_relocations@ == before + relocations_at(entries, 0, i as int, page_virtual_address),
            decreases reloc_num - i,
        {
            match relocations.next() {
                Some(mut r) => {
                    r.page_base_rva = page_virtual_address;
                    base_relocations.push(r);
                },
                None => {},
            }
            proof {
                assert(relocation_at(entries.subrange(2 * i as int, entries.len() as int), 0, 0).typ
                    == relocation_at(entries, 2 * i as int, page_virtual_address).typ);
                assert(relocations.rest() =~= entries.subrange(2 * (i + 1) as int, entries.len() as int));
                assert(base_relocations@ =~= before + relocations_at(entries, 0, (i + 1) as int, page_virtual_address));
            }
            i = i + 1;
        }
        let ghost here = relocations_at(payload@, start + 8, reloc_num as int, page_virtual_address);
        proof {
            assert(relocations_at(entries, 0, reloc_num as int, page_virtual_address) =~= here);
            assert(base_relocations@ == before + here);
        }
        if block_size >= table_size - size_processed {
            size_processed = table_size;
            proof {
                assert(relocation_blocks(payload@, start as int, rem) == Some(here));
                assert(base_relocations@ + Seq::<BaseRelocation>::empty() =~= base_relocations@);
            }
        } else {
            if start > usize::MAX - block_size {
                proof {
                    assert(relocation_blocks(payload@, start + block_size, rem - block_size) is None);
                }
                return Err(HyperlightError::PeFileMalformed(start));
            }
            size_processed = size_processed + block_size;
            next_block_offset = start + block_size;
            proof {
                let next = relocation_blocks(payload@, next_block_offset as int, rem - block_size);
                if next is Some {
                    assert(before + (here + next->Some_0) =~= base_relocations@ + next->Some_0);
                }
            }
        }
    }
    Ok(base_relocations)
}

/// The base relocations of a PE image whose base relocation directory
/// starts at `table_virtual_address` and spans `table_size` bytes: the
/// entries of every block of the table, read from `payload`, each with the
/// page base RVA of its block. A directory of size zero yields no entries.
/// Fails with `PeFileMalformed` where `relocation_blocks` is `None`.
pub fn get_base_relocations(payload: &[u8], table_virtual_address: u32, table_size: u32)
    -> (r: Result<Vec<BaseRelocation>, HyperlightError>)
    ensures
        r is Ok <==> relocation_blocks(payload@, table_virtual_address as int, table_size as int) is Some,
        r is Ok ==> r->Ok_0@ == relocation_blocks(payload@, table_virtual_address as int, table_size as int)->Some_0,
{
    read_relocation_blocks(payload, table_virtual_address as usize, table_size as usize)
}

} // verus!
