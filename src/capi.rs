use vstd::prelude::*;

use crate::error::HyperlightError;
use crate::shared_mem::{splice, u32_at, u64_at, with_u32, with_u64, SharedMemory};

verus! {

/// Number of distinct keys per kind of handle.
pub const KEY_SPACE: u64 = 0x1_0000_0000;

/// An opaque reference, handed to foreign callers, to a value that a
/// `Context` holds. The upper half names the kind of value, the lower half
/// its key.
#[derive(Debug, Clone, Copy, PartialEq, Eq, Structural)]
pub struct Handle(pub u64);

/// A decoded handle.
#[derive(Debug, Clone, Copy, PartialEq, Eq, Structural)]
pub enum Hdl {
    /// Refers to nothing; returned where an operation has no value.
    Empty,
    /// A byte array.
    ByteArray(u32),
    /// A block of guest memory.
    GuestMemory(u32),
}

/// What a raw handle value decodes to, if anything.
pub open spec fn decode_handle(h: u64) -> Option<Hdl> {
    let kind = h / KEY_SPACE;
    let key = (h % KEY_SPACE) as u32;
    if h == 0 {
        Some(Hdl::Empty)
    } else if kind == 1 {
        Some(Hdl::ByteArray(key))
    } else if kind == 2 {
        Some(Hdl::GuestMemory(key))
    } else {
        None
    }
}

/// The raw handle value of a decoded handle.
pub open spec fn encode_handle(h: Hdl) -> u64 {
    match h {
        Hdl::Empty => 0,
        Hdl::ByteArray(k) => (KEY_SPACE + k) as u64,
        Hdl::GuestMemory(k) => (2 * KEY_SPACE + k) as u64,
    }
}

impl Hdl {
    /// Decode `handle`; `None` when it names no kind of value.
    pub fn from_handle(handle: Handle) -> (r: Option<Hdl>)
        ensures
            r == decode_handle(handle.0),
    {
        let kind = handle.0 / KEY_SPACE;
        let key = (handle.0 % KEY_SPACE) as u32;
        if handle.0 == 0 {
            Some(Hdl::Empty)
        } else if kind == 1 {
            Some(Hdl::ByteArray(key))
        } else if kind == 2 {
            Some(Hdl::GuestMemory(key))
        } else {
            None
        }
    }

    /// The handle that decodes to `self`.
    pub fn to_handle(&self) -> (r: Handle)
        ensures
            r.0 == encode_handle(*self),
            decode_handle(r.0) == Some(*self),
    {
        match *self {
            Hdl::Empty => Handle(0),
            Hdl::ByteArray(k) => Handle(KEY_SPACE + k as u64),
            Hdl::GuestMemory(k) => Handle(2 * KEY_SPACE + k as u64),
        }
    }
}

/// The values that foreign callers refer to by handle: byte arrays and
/// blocks of guest memory, each kept in a slab indexed by key.
pub struct Context {
    byte_arrays: Vec<Option<Vec<u8>>>,
    guest_mems: Vec<Option<SharedMemory>>,
}

impl Context {
    /// The byte array stored under `key`, if any.
    pub closed spec fn byte_array_at(&self, key: int) -> Option<Seq<u8>> {
        if 0 <= key < self.byte_arrays@.len() {
            match self.byte_arrays@[key] {
                Some(v) => Some(v@),
                None => None,
            }
        } else {
            None
        }
    }

    /// The guest memory stored under `key`, if any.
    pub closed spec fn guest_mem_at(&self, key: int) -> Option<SharedMemory> {
        if 0 <= key < self.guest_mems@.len() {
            self.guest_mems@[key]
        } else {
            None
        }
    }

    /// Number of byte array slots in use or freed; the next byte array gets
    /// this key.
    pub closed spec fn byte_array_slots(&self) -> int {
        self.byte_arrays@.len() as int
    }

    /// Number of guest memory slots in use or freed; the next guest memory
    /// gets this key.
    pub closed spec fn guest_mem_slots(&self) -> int {
        self.guest_mems@.len() as int
    }

    /// The byte array a handle refers to, if any.
    pub open spec fn byte_array_of(&self, handle: Handle) -> Option<Seq<u8>> {
        match decode_handle(handle.0) {
            Some(Hdl::ByteArray(k)) => self.byte_array_at(k as int),
            _ => None,
        }
    }

    /// The guest memory a handle refers to, if any.
    pub open spec fn guest_mem_of(&self, handle: Handle) -> Option<SharedMemory> {
        match decode_handle(handle.0) {
            Some(Hdl::GuestMemory(k)) => self.guest_mem_at(k as int),
            _ => None,
        }
    }

    /// A context that holds nothing.
    pub fn new() -> (r: Context)
        ensures
            forall|k: int| r.byte_array_at(k) is None && r.guest_mem_at(k) is None,
            r.byte_array_slots() == 0,
            r.guest_mem_slots() == 0,
    {
        Context { byte_arrays: Vec::new(), guest_mems: Vec::new() }
    }

    /// Store `arr` and return a handle to it, keyed by the number of byte
    /// array slots so far; fails, changing nothing, when all `KEY_SPACE` keys
    /// are taken.
    pub fn register_byte_array(&mut self, arr: Vec<u8>) -> (r: Result<Handle, HyperlightError>)
        ensures
            r is Ok <==> old(self).byte_array_slots() < KEY_SPACE,
            r is Ok ==> r->Ok_0.0 == encode_handle(Hdl::ByteArray(old(self).byte_array_slots() as u32)),
            r is Ok ==> final(self).byte_array_slots() == old(self).byte_array_slots() + 1,
            r is Err ==> final(self).byte_array_slots() == old(self).byte_array_slots()
                && r->Err_0 == HyperlightError::InvalidHandle(0)
                && forall|k: int| #[trigger] final(self).byte_array_at(k) == old(self).byte_array_at(k),
            final(self).guest_mem_slots() == old(self).guest_mem_slots(),
            r is Ok ==> final(self).byte_array_of(r->Ok_0) == Some(arr@),
            r is Ok ==> forall|k: int| k != (r->Ok_0.0 % KEY_SPACE) as int
                ==> #[trigger] final(self).byte_array_at(k) == old(self).byte_array_at(k),
            forall|k: int| #[trigger] final(self).guest_mem_at(k) == old(self).guest_mem_at(k),
    {
        let key = self.byte_arrays.len();
        if key as u64 >= KEY_SPACE {
            return Err(HyperlightError::InvalidHandle(0));
        }
        self.byte_arrays.push(Some(arr));
        let h = Hdl::ByteArray(key as u32).to_handle();
        proof {
            assert(h.0 % KEY_SPACE == key as u64);
        }
        Ok(h)
    }

    /// Store `mem` and return a handle to it, keyed by the number of guest
    /// memory slots so far; fails, changing nothing, when all `KEY_SPACE`
    /// keys are taken.
    pub fn register_guest_memory(&mut self, mem: SharedMemory) -> (r: Result<Handle, HyperlightError>)
        ensures
            r is Ok <==> old(self).guest_mem_slots() < KEY_SPACE,
            r is Ok ==> r->Ok_0.0 == encode_handle(Hdl::GuestMemory(old(self).guest_mem_slots() as u32)),
            r is Ok ==> final(self).guest_mem_slots() == old(self).guest_mem_slots() + 1,
            r is Err ==> final(self).guest_mem_slots() == old(self).guest_mem_slots()
                && r->Err_0 == HyperlightError::InvalidHandle(0)
                && forall|k: int| #[trigger] final(self).guest_mem_at(k) == old(self).guest_mem_at(k),
            final(self).byte_array_slots() == old(self).byte_array_slots(),
            r is Ok ==> final(self).guest_mem_of(r->Ok_0) == Some(mem),
            r is Ok ==> forall|k: int| k != (r->Ok_0.0 % KEY_SPACE) as int
                ==> #[trigger] final(self).guest_mem_at(k) == old(self).guest_mem_at(k),
            forall|k: int| #[trigger] final(self).byte_array_at(k) == old(self).byte_array_at(k),
    {
        let key = self.guest_mems.len();
        if key as u64 >= KEY_SPACE {
            return Err(HyperlightError::InvalidHandle(0));
        }
        self.guest_mems.push(Some(mem));
        let h = Hdl::GuestMemory(key as u32).to_handle();
        proof {
            assert(h.0 % KEY_SPACE == key as u64);
        }
        Ok(h)
    }
}

/// The byte array that `handle` refers to in `ctx`; fails with
/// `InvalidHandle` when it refers to none.
pub fn get_byte_array(ctx: &Context, handle: Handle) -> (r: Result<&Vec<u8>, HyperlightError>)
    ensures
        r is Ok <==> ctx.byte_array_of(handle) is Some,
        r is Ok ==> Some(r->Ok_0@) == ctx.byte_array_of(handle),
        r is Err ==> r->Err_0 == HyperlightError::InvalidHandle(handle.0),
{
    match Hdl::from_handle(handle) {
        Some(Hdl::ByteArray(k)) => {
            let k = k as usize;
            if k < ctx.byte_arrays.len() {
                match &ctx.byte_arrays[k] {
                    Some(v) => Ok(v),
                    None => Err(HyperlightError::InvalidHandle(handle.0)),
                }
            } else {
                Err(HyperlightError::InvalidHandle(handle.0))
            }
        },
        _ => Err(HyperlightError::InvalidHandle(handle.0)),
    }
}

/// The guest memory that `hdl` refers to in `ctx`; fails with
/// `InvalidHandle` when it refers to none.
pub fn get_guest_memory(ctx: &Context, hdl: Handle) -> (r: Result<&SharedMemory, HyperlightError>)
    ensures
        r is Ok <==> ctx.guest_mem_of(hdl) is Some,
        r is Ok ==> Some(*r->Ok_0) == ctx.guest_mem_of(hdl),
        r is Err ==> r->Err_0 == HyperlightError::InvalidHandle(hdl.0),
{
    match Hdl::from_handle(hdl) {
        Some(Hdl::GuestMemory(k)) => {
            let k = k as usize;
            if k < ctx.guest_mems.len() {
                match &ctx.guest_mems[k] {
                    Some(m) => Ok(m),
                    None => Err(HyperlightError::InvalidHandle(hdl.0)),
                }
            } else {
                Err(HyperlightError::InvalidHandle(hdl.0))
            }
        },
        _ => Err(HyperlightError::InvalidHandle(hdl.0)),
    }
}

/// Number of bytes in the byte array that `handle` refers to.
pub fn len(ctx: &Context, handle: Handle) -> (r: Result<usize, HyperlightError>)
    ensures
        r is Ok <==> ctx.byte_array_of(handle) is Some,
        r is Ok ==> r->Ok_0 == ctx.byte_array_of(handle)->Some_0.len(),
        r is Err ==> r->Err_0 == HyperlightError::InvalidHandle(handle.0),
{
    match get_byte_array(ctx, handle) {
        Ok(arr) => Ok(arr.len()),
        Err(e) => Err(e),
    }
}

/// Take the byte array that `handle` refers to out of `ctx`; afterwards
/// the handle refers to nothing. Fails, changing nothing, when it refers to
/// no byte array.
pub fn remove(ctx: &mut Context, handle: Handle) -> (r: Result<Vec<u8>, HyperlightError>)
    ensures
        r is Ok <==> old(ctx).byte_array_of(handle) is Some,
        r is Ok ==> Some(r->Ok_0@) == old(ctx).byte_array_of(handle),
        r is Ok ==> final(ctx).byte_array_of(handle) is None,
        r is Ok ==> forall|k: int| k != (handle.0 % KEY_SPACE) as int
            ==> #[trigger] final(ctx).byte_array_at(k) == old(ctx).byte_array_at(k),
        r is Err ==> r->Err_0 == HyperlightError::InvalidHandle(handle.0),
        r is Err ==> forall|k: int| #[trigger] final(ctx).byte_array_at(k) == old(ctx).byte_array_at(k),
        forall|k: int| #[trigger] final(ctx).guest_mem_at(k) == old(ctx).guest_mem_at(k),
        final(ctx).byte_array_slots() == old(ctx).byte_array_slots(),
        final(ctx).guest_mem_slots() == old(ctx).guest_mem_slots(),
{
    match Hdl::from_handle(handle) {
        Some(Hdl::ByteArray(k)) => {
            let k = k as usize;
            if k < ctx.byte_arrays.len() {
                let mut taken: Option<Vec<u8>> = None;
                std::mem::swap(&mut taken, &mut ctx.byte_arrays[k]);
                match taken {
                    Some(v) => Ok(v),
                    None => Err(HyperlightError::InvalidHandle(handle.0)),
                }
            } else {
                Err(HyperlightError::InvalidHandle(handle.0))
            }
        },
        _ => Err(HyperlightError::InvalidHandle(handle.0)),
    }
}

/// The guest memory that `hdl` refers to in `ctx`, for writing; fails with
/// `InvalidHandle` when it refers to none.
pub fn get_guest_memory_mut(ctx: &mut Context, hdl: Handle) -> (r: Result<&mut SharedMemory, HyperlightError>)
    ensures
        r is Ok <==> old(ctx).guest_mem_of(hdl) is Some,
        r is Ok ==> Some(*r->Ok_0) == old(ctx).guest_mem_of(hdl),
        r is Ok ==> final(ctx).guest_mem_of(hdl) == Some(*final(r->Ok_0)),
        r is Ok ==> forall|k: int| k != (hdl.0 % KEY_SPACE) as int
            ==> #[trigger] final(ctx).guest_mem_at(k) == old(ctx).guest_mem_at(k),
        r is Err ==> r->Err_0 == HyperlightError::InvalidHandle(hdl.0),
        r is Err ==> forall|k: int| #[trigger] final(ctx).guest_mem_at(k) == old(ctx).guest_mem_at(k),
        forall|k: int| #[trigger] final(ctx).byte_array_at(k) == old(ctx).byte_array_at(k),
        final(ctx).byte_array_slots() == old(ctx).byte_array_slots(),
        final(ctx).guest_mem_slots() == old(ctx).guest_mem_slots(),
{
    match Hdl::from_handle(hdl) {
        Some(Hdl::GuestMemory(k)) => {
            let k = k as usize;
            if k < ctx.guest_mems.len() {
                match &mut ctx.guest_mems[k] {
                    Some(m) => Ok(m),
                    None => Err(HyperlightError::InvalidHandle(hdl.0)),
                }
            } else {
                Err(HyperlightError::InvalidHandle(hdl.0))
            }
        },
        _ => Err(HyperlightError::InvalidHandle(hdl.0)),
    }
}

/// The byte array that `handle` refers to in `ctx`, for writing; fails with
/// `InvalidHandle` when it refers to none.
pub fn get_byte_array_mut(ctx: &mut Context, handle: Handle) -> (r: Result<&mut Vec<u8>, HyperlightError>)
    ensures
        r is Ok <==> old(ctx).byte_array_of(handle) is Some,
        r is Ok ==> Some(r->Ok_0@) == old(ctx).byte_array_of(handle),
        r is Ok ==> final(ctx).byte_array_of(handle) == Some(final(r->Ok_0)@),
        r is Ok ==> forall|k: int| k != (handle.0 % KEY_SPACE) as int
            ==> #[trigger] final(ctx).byte_array_at(k) == old(ctx).byte_array_at(k),
        r is Err ==> r->Err_0 == HyperlightError::InvalidHandle(handle.0),
        r is Err ==> forall|k: int| #[trigger] final(ctx).byte_array_at(k) == old(ctx).byte_array_at(k),
        forall|k: int| #[trigger] final(ctx).guest_mem_at(k) == old(ctx).guest_mem_at(k),
        final(ctx).byte_array_slots() == old(ctx).byte_array_slots(),
        final(ctx).guest_mem_slots() == old(ctx).guest_mem_slots(),
{
    match Hdl::from_handle(handle) {
        Some(Hdl::ByteArray(k)) => {
            let k = k as usize;
            if k < ctx.byte_arrays.len() {
                match &mut ctx.byte_arrays[k] {
                    Some(v) => Ok(v),
                    None => Err(HyperlightError::InvalidHandle(handle.0)),
                }
            } else {
                Err(HyperlightError::InvalidHandle(handle.0))
            }
        },
        _ => Err(HyperlightError::InvalidHandle(handle.0)),
    }
}

/// Host address of the guest memory that `hdl` refers to.
pub fn get_address(ctx: &Context, hdl: Handle) -> (r: Result<usize, HyperlightError>)
    ensures
        r is Ok <==> ctx.guest_mem_of(hdl) is Some,
        r is Ok ==> r->Ok_0 == ctx.guest_mem_of(hdl)->Some_0.spec_base_addr(),
        r is Err ==> r->Err_0 == HyperlightError::InvalidHandle(hdl.0),
{
    match get_guest_memory(ctx, hdl) {
        Ok(gm) => Ok(gm.base_addr()),
        Err(e) => Err(e),
    }
}

/// The little-endian `i64` at offset `addr` of the guest memory that `hdl`
/// refers to. Fails with `InvalidHandle` when it refers to none, and with
/// `MemoryAccessOutOfBounds` when the eight bytes are not all inside it.
pub fn read_int_64(ctx: &Context, hdl: Handle, addr: u64) -> (r: Result<i64, HyperlightError>)
    ensures
        ctx.guest_mem_of(hdl) is None ==> r == Err::<i64, HyperlightError>(HyperlightError::InvalidHandle(hdl.0)),
        ctx.guest_mem_of(hdl) is Some ==> {
            let m = ctx.guest_mem_of(hdl)->Some_0;
            &&& r is Ok <==> addr + 8 <= m@.len()
            &&& r is Ok ==> r->Ok_0 == u64_at(m@, addr as int) as i64
            &&& r is Err ==> r->Err_0 is MemoryAccessOutOfBounds
        },
{
    let gm = match get_guest_memory(ctx, hdl) {
        Ok(gm) => gm,
        Err(e) => return Err(e),
    };
    if addr > usize::MAX as u64 {
        return Err(HyperlightError::MemoryAccessOutOfBounds(usize::MAX, 8, gm.mem_size()));
    }
    gm.read_i64(addr as usize)
}

/// The little-endian `i32` at offset `addr` of the guest memory that `hdl`
/// refers to. Fails with `InvalidHandle` when it refers to none, and with
/// `MemoryAccessOutOfBounds` when the four bytes are not all inside it.
pub fn read_int_32(ctx: &Context, hdl: Handle, addr: u64) -> (r: Result<i32, HyperlightError>)
    ensures
        ctx.guest_mem_of(hdl) is None ==> r == Err::<i32, HyperlightError>(HyperlightError::InvalidHandle(hdl.0)),
        ctx.guest_mem_of(hdl) is Some ==> {
            let m = ctx.guest_mem_of(hdl)->Some_0;
            &&& r is Ok <==> addr + 4 <= m@.len()
            &&& r is Ok ==> r->Ok_0 == u32_at(m@, addr as int) as i32
            &&& r is Err ==> r->Err_0 is MemoryAccessOutOfBounds
        },
{
    let gm = match get_guest_memory(ctx, hdl) {
        Ok(gm) => gm,
        Err(e) => return Err(e),
    };
    if addr > usize::MAX as u64 {
        return Err(HyperlightError::MemoryAccessOutOfBounds(usize::MAX, 4, gm.mem_size()));
    }
    gm.read_i32(addr as usize)
}

/// Write `val` as a little-endian 64-bit value at offset `addr` of the
/// guest memory that `hdl` refers to. Fails, changing nothing, with
/// `InvalidHandle` when it refers to none, and with `MemoryAccessOutOfBounds`
/// when the eight bytes are not all inside it.
pub fn write_int_64(ctx: &mut Context, hdl: Handle, addr: usize, val: usize) -> (r: Result<(), HyperlightError>)
    ensures
        old(ctx).guest_mem_of(hdl) is None ==> r == Err::<(), HyperlightError>(HyperlightError::InvalidHandle(hdl.0)),
        old(ctx).guest_mem_of(hdl) is Some ==> {
            let m = old(ctx).guest_mem_of(hdl)->Some_0;
            let n = final(ctx).guest_mem_of(hdl)->Some_0;
            &&& r is Ok <==> addr + 8 <= m@.len()
            &&& final(ctx).guest_mem_of(hdl) is Some
            &&& r is Ok ==> n@ == with_u64(m@, addr as int, val as u64)
            &&& r is Err ==> n@ == m@ && r->Err_0 is MemoryAccessOutOfBounds
            &&& n.spec_base_addr() == m.spec_base_addr()
        },
        forall|k: int| k != (hdl.0 % KEY_SPACE) as int
            ==> #[trigger] final(ctx).guest_mem_at(k) == old(ctx).guest_mem_at(k),
        forall|k: int| #[trigger] final(ctx).byte_array_at(k) == old(ctx).byte_array_at(k),
        final(ctx).byte_array_slots() == old(ctx).byte_array_slots(),
        final(ctx).guest_mem_slots() == old(ctx).guest_mem_slots(),
{
    let gm = match get_guest_memory_mut(ctx, hdl) {
        Ok(gm) => gm,
        Err(e) => return Err(e),
    };
    gm.write_u64(addr, val as u64)
}

/// Write `val` as a little-endian 32-bit value at offset `addr` of the
/// guest memory that `hdl` refers to. Fails, changing nothing, with
/// `InvalidHandle` when it refers to none, and with `MemoryAccessOutOfBounds`
/// when the four bytes are not all inside it.
pub fn write_int_32(ctx: &mut Context, hdl: Handle, addr: usize, val: i32) -> (r: Result<(), HyperlightError>)
    ensures
        old(ctx).guest_mem_of(hdl) is None ==> r == Err::<(), HyperlightError>(HyperlightError::InvalidHandle(hdl.0)),
        old(ctx).guest_mem_of(hdl) is Some ==> {
            let m = old(ctx).guest_mem_of(hdl)->Some_0;
            let n = final(ctx).guest_mem_of(hdl)->Some_0;
            &&& r is Ok <==> addr + 4 <= m@.len()
            &&& final(ctx).guest_mem_of(hdl) is Some
            &&& r is Ok ==> n@ == with_u32(m@, addr as int, val as u32)
            &&& r is Err ==> n@ == m@ && r->Err_0 is MemoryAccessOutOfBounds
            &&& n.spec_base_addr() == m.spec_base_addr()
        },
        forall|k: int| k != (hdl.0 % KEY_SPACE) as int
            ==> #[trigger] final(ctx).guest_mem_at(k) == old(ctx).guest_mem_at(k),
        forall|k: int| #[trigger] final(ctx).byte_array_at(k) == old(ctx).byte_array_at(k),
        final(ctx).byte_array_slots() == old(ctx).byte_array_slots(),
        final(ctx).guest_mem_slots() == old(ctx).guest_mem_slots(),
{
    let gm = match get_guest_memory_mut(ctx, hdl) {
        Ok(gm) => gm,
        Err(e) => return Err(e),
    };
    gm.write_i32(addr, val)
}

/// The bytes `arr_start .. arr_start + arr_length` of the byte array that
/// `byte_arr_hdl` refers to. Fails with `InvalidHandle` when it refers to
/// none, and with `ByteArrayRangeOutOfBounds` when `arr_start` is not inside
/// the array or the range runs past its end.
pub fn copy_from_byte_array(
    ctx: &Context,
    byte_arr_hdl: Handle,
    arr_start: usize,
    arr_length: usize,
) -> (r: Result<Vec<u8>, HyperlightError>)
    ensures
        ctx.byte_array_of(byte_arr_hdl) is None ==> r == Err::<Vec<u8>, HyperlightError>(
            HyperlightError::InvalidHandle(byte_arr_hdl.0)),
        ctx.byte_array_of(byte_arr_hdl) is Some ==> {
            let a = ctx.byte_array_of(byte_arr_hdl)->Some_0;
            &&& r is Ok <==> arr_start < a.len() && arr_start + arr_length <= a.len()
            &&& r is Ok ==> r->Ok_0@ == a.subrange(arr_start as int, arr_start + arr_length)
            &&& r is Err ==> r->Err_0 == HyperlightError::ByteArrayRangeOutOfBounds(
                arr_start,
                arr_length,
                a.len() as usize,
            )
        },
{
    let byte_arr = match get_byte_array(ctx, byte_arr_hdl) {
        Ok(a) => a,
        Err(e) => return Err(e),
    };
    let byte_arr_len = byte_arr.len();
    if arr_start >= byte_arr_len || arr_length > byte_arr_len - arr_start {
        return Err(HyperlightError::ByteArrayRangeOutOfBounds(arr_start, arr_length, byte_arr_len));
    }
    let mut out: Vec<u8> = Vec::with_capacity(arr_length);
    let mut i: usize = 0;
    while i < arr_length
        invariant
            arr_start + arr_length <= byte_arr@.len(),
            byte_arr@.len() == byte_arr_len,
            i <= arr_length,
            out@ == byte_arr@.subrange(arr_start as int, arr_start + i),
        decreases arr_length - i,
    {
        out.push(byte_arr[arr_start + i]);
        i = i + 1;
        assert(out@ =~= byte_arr@.subrange(arr_start as int, arr_start + i));
    }
    Ok(out)
}

/// Copy the bytes `arr_start .. arr_start + arr_length` of the byte array
/// that `byte_array_hdl` refers to into the guest memory that
/// `guest_mem_hdl` refers to, at `guest_mem_offset`. Fails, changing
/// nothing, when either handle refers to nothing of its kind, when the range
/// is not inside the array, or when the bytes do not fit the guest memory.
pub fn copy_byte_array(
    ctx: &mut Context,
    guest_mem_hdl: Handle,
    byte_array_hdl: Handle,
    guest_mem_offset: usize,
    arr_start: usize,
    arr_length: usize,
) -> (r: Result<(), HyperlightError>)
    ensures
        r is Ok <==> {
            &&& old(ctx).byte_array_of(byte_array_hdl) is Some
            &&& old(ctx).guest_mem_of(guest_mem_hdl) is Some
            &&& arr_start < old(ctx).byte_array_of(byte_array_hdl)->Some_0.len()
            &&& arr_start + arr_length <= old(ctx).byte_array_of(byte_array_hdl)->Some_0.len()
            &&& guest_mem_offset + arr_length <= old(ctx).guest_mem_of(guest_mem_hdl)->Some_0@.len()
        },
        r is Ok ==> final(ctx).guest_mem_of(guest_mem_hdl) is Some
            && final(ctx).guest_mem_of(guest_mem_hdl)->Some_0@ == splice(
                old(ctx).guest_mem_of(guest_mem_hdl)->Some_0@,
                guest_mem_offset as int,
                old(ctx).byte_array_of(byte_array_hdl)->Some_0.subrange(
                    arr_start as int,
                    arr_start + arr_length,
                ),
            ),
        r is Err ==> forall|k: int| #[trigger] final(ctx).guest_mem_at(k) == old(ctx).guest_mem_at(k),
        r is Ok ==> forall|k: int| k != (guest_mem_hdl.0 % KEY_SPACE) as int
            ==> #[trigger] final(ctx).guest_mem_at(k) == old(ctx).guest_mem_at(k),
        forall|k: int| #[trigger] final(ctx).byte_array_at(k) == old(ctx).byte_array_at(k),
        final(ctx).byte_array_slots() == old(ctx).byte_array_slots(),
        final(ctx).guest_mem_slots() == old(ctx).guest_mem_slots(),
{
    let data = match copy_from_byte_array(ctx, byte_array_hdl, arr_start, arr_length) {
        Ok(d) => d,
        Err(e) => return Err(e),
    };
    let mem_size = match get_guest_memory(ctx, guest_mem_hdl) {
        Ok(gm) => gm.mem_size(),
        Err(e) => return Err(e),
    };
    if guest_mem_offset > mem_size || mem_size - guest_mem_offset < arr_length {
        return Err(HyperlightError::MemoryAccessOutOfBounds(guest_mem_offset, arr_length, mem_size));
    }
    let guest_mem = match get_guest_memory_mut(ctx, guest_mem_hdl) {
        Ok(gm) => gm,
        Err(e) => return Err(e),
    };
    guest_mem.copy_from_slice(data.as_slice(), guest_mem_offset)
}

/// Fill `byte_array` with the bytes of the guest memory that
/// `guest_mem_hdl` refers to, from `offset` on. Fails, changing nothing,
/// when the handle refers to no guest memory or the bytes are not all
/// inside it.
pub fn copy_to_byte_array(
    ctx: &Context,
    guest_mem_hdl: Handle,
    byte_array: &mut [u8],
    offset: usize,
) -> (r: Result<(), HyperlightError>)
    ensures
        r is Ok <==> ctx.guest_mem_of(guest_mem_hdl) is Some
            && offset + old(byte_array)@.len() <= ctx.guest_mem_of(guest_mem_hdl)->Some_0@.len(),
        r is Ok ==> final(byte_array)@ == ctx.guest_mem_of(guest_mem_hdl)->Some_0@.subrange(
            offset as int,
            offset + old(byte_array)@.len(),
        ),
        r is Err ==> final(byte_array)@ == old(byte_array)@,
{
    let guest_mem = match get_guest_memory(ctx, guest_mem_hdl) {
        Ok(gm) => gm,
        Err(e) => return Err(e),
    };
    guest_mem.copy_to_slice(byte_array, offset)
}

} // verus!
