use hyperlight_host::capi::{
    copy_byte_array, copy_from_byte_array, copy_to_byte_array, get_address, get_byte_array,
    get_byte_array_mut, get_guest_memory, get_guest_memory_mut, len, read_int_32, read_int_64,
    remove, write_int_32, write_int_64, Context, Handle, Hdl,
};
use hyperlight_host::error::HyperlightError;
use hyperlight_host::shared_mem::SharedMemory;

struct TestData {
    ctx: Box<Context>,
    guest_mem_hdl: Handle,
    guest_mem_size: usize,
    byte_arr_hdl: Handle,
    barr_len: usize,
}

impl TestData {
    fn new(barr_vec_len: usize, guest_mem_size: usize) -> Self {
        let mut ctx = Context::new();
        let barr_vec = {
            let mut v = Vec::new();
            for i in 0..barr_vec_len {
                v.push(i as u8);
            }
            v
        };
        let barr_hdl = ctx.register_byte_array(barr_vec).unwrap();
        let guest_mem_hdl = {
            let gm = SharedMemory::new(guest_mem_size).unwrap();
            ctx.register_guest_memory(gm).unwrap()
        };
        Self {
            ctx: Box::new(ctx),
            guest_mem_hdl,
            guest_mem_size,
            byte_arr_hdl: barr_hdl,
            barr_len: barr_vec_len,
        }
    }
}

#[test]
fn byte_array_len() {
    let mut ctx = Context::new();
    let barr = vec![1, 2, 3];
    let barr_len = barr.len();
    let barr_hdl = ctx.register_byte_array(barr).unwrap();
    assert_eq!(Hdl::from_handle(barr_hdl), Some(Hdl::ByteArray(0)));
    assert_eq!(len(&ctx, barr_hdl).unwrap(), barr_len);
}

#[test]
fn byte_array_remove() {
    let mut ctx = Context::new();
    let barr = vec![1, 2, 3];
    let barr_copy = barr.clone();
    let barr_hdl = ctx.register_byte_array(barr).unwrap();
    assert_eq!(Hdl::from_handle(barr_hdl), Some(Hdl::ByteArray(0)));
    {
        let ret_barr = remove(&mut ctx, barr_hdl).unwrap();
        assert_eq!(barr_copy, ret_barr);
    }
    {
        let ret_barr_res = remove(&mut ctx, barr_hdl);
        assert!(ret_barr_res.is_err());
    }
}

#[test]
fn copy_byte_array_at_start() {
    let mut test_data = TestData::new(3, 0x1000);
    copy_byte_array(
        test_data.ctx.as_mut(),
        test_data.guest_mem_hdl,
        test_data.byte_arr_hdl,
        0,
        0,
        test_data.barr_len,
    )
    .unwrap();
    let gm = get_guest_memory(&test_data.ctx, test_data.guest_mem_hdl).unwrap();
    let mut out = [9u8; 4];
    gm.copy_to_slice(&mut out, 0).unwrap();
    assert_eq!(out, [0, 1, 2, 0]);
}

#[test]
fn copy_byte_array_twice() {
    let mut test_data = TestData::new(3, 0x1000);
    copy_byte_array(
        test_data.ctx.as_mut(),
        test_data.guest_mem_hdl,
        test_data.byte_arr_hdl,
        0,
        0,
        test_data.barr_len,
    )
    .unwrap();
    copy_byte_array(
        test_data.ctx.as_mut(),
        test_data.guest_mem_hdl,
        test_data.byte_arr_hdl,
        0,
        0,
        test_data.barr_len,
    )
    .unwrap();
}

#[test]
fn copy_byte_array_at_end() {
    let mut test_data = TestData::new(3, 0x1000);
    copy_byte_array(
        test_data.ctx.as_mut(),
        test_data.guest_mem_hdl,
        test_data.byte_arr_hdl,
        test_data.guest_mem_size - test_data.barr_len - 1,
        0,
        test_data.barr_len,
    )
    .unwrap();
}

#[test]
fn copy_byte_array_invalid_offset() {
    let mut test_data = TestData::new(3, 0x1000);
    let res = copy_byte_array(
        test_data.ctx.as_mut(),
        test_data.guest_mem_hdl,
        test_data.byte_arr_hdl,
        test_data.guest_mem_size,
        0,
        1,
    );
    assert!(matches!(res, Err(_)));
}

#[test]
fn copy_byte_array_too_much() {
    let mut test_data = TestData::new(3, 0x1000);
    let res = copy_byte_array(
        test_data.ctx.as_mut(),
        test_data.guest_mem_hdl,
        test_data.byte_arr_hdl,
        0,
        0,
        test_data.barr_len * 10,
    );
    assert!(matches!(res, Err(_)));
}

#[test]
fn handles_of_the_wrong_kind_are_rejected() {
    let test_data = TestData::new(3, 0x1000);
    let ctx = &test_data.ctx;
    assert_eq!(
        len(ctx, test_data.guest_mem_hdl).unwrap_err(),
        HyperlightError::InvalidHandle(test_data.guest_mem_hdl.0)
    );
    assert!(get_guest_memory(ctx, test_data.byte_arr_hdl).is_err());
    assert!(get_byte_array(ctx, Handle(7 << 32)).is_err());
    assert_eq!(Hdl::from_handle(Handle(0)), Some(Hdl::Empty));
    assert_eq!(Hdl::GuestMemory(5).to_handle(), Handle((2u64 << 32) + 5));
}

#[test]
fn byte_array_ranges() {
    let test_data = TestData::new(5, 0x1000);
    let ctx = &test_data.ctx;
    assert_eq!(copy_from_byte_array(ctx, test_data.byte_arr_hdl, 1, 3).unwrap(), vec![1, 2, 3]);
    assert_eq!(
        copy_from_byte_array(ctx, test_data.byte_arr_hdl, 5, 0).unwrap_err(),
        HyperlightError::ByteArrayRangeOutOfBounds(5, 0, 5)
    );
    assert!(copy_from_byte_array(ctx, test_data.byte_arr_hdl, 2, 4).is_err());
}

#[test]
fn guest_memory_integers_through_handles() {
    let mut test_data = TestData::new(3, 0x1000);
    let hdl = test_data.guest_mem_hdl;
    let ctx = test_data.ctx.as_mut();
    write_int_64(ctx, hdl, 8, 0x1234_5678_9abc_def0).unwrap();
    assert_eq!(read_int_64(ctx, hdl, 8).unwrap(), 0x1234_5678_9abc_def0);
    write_int_32(ctx, hdl, 100, -7).unwrap();
    assert_eq!(read_int_32(ctx, hdl, 100).unwrap(), -7);
    assert!(matches!(
        read_int_64(ctx, hdl, 0x1000 - 4),
        Err(HyperlightError::MemoryAccessOutOfBounds(..))
    ));
    assert!(write_int_32(ctx, hdl, 0x1000 - 3, 1).is_err());
    let base = get_guest_memory(ctx, hdl).unwrap().base_addr();
    assert_eq!(get_address(ctx, hdl).unwrap(), base);
    get_guest_memory_mut(ctx, hdl).unwrap().write_u64(0, 3).unwrap();
    assert_eq!(read_int_64(ctx, hdl, 0).unwrap(), 3);
    let mut out = [0u8; 2];
    copy_to_byte_array(ctx, hdl, &mut out, 0).unwrap();
    assert_eq!(out, [3, 0]);
    assert!(copy_to_byte_array(ctx, hdl, &mut out, 0x1000 - 1).is_err());
}

#[test]
fn byte_array_written_through_handle() {
    let mut test_data = TestData::new(3, 0x1000);
    let hdl = test_data.byte_arr_hdl;
    get_byte_array_mut(test_data.ctx.as_mut(), hdl).unwrap().push(9);
    assert_eq!(get_byte_array(&test_data.ctx, hdl).unwrap(), &vec![0, 1, 2, 9]);
}
