use hyperlight_host::base_relocations::{
    get_base_relocations, read_relocation_blocks, BaseRelocation, BaseRelocations,
};
use hyperlight_host::error::HyperlightError;

fn block(va: u32, entries: &[u16]) -> Vec<u8> {
    let mut v = va.to_le_bytes().to_vec();
    v.extend_from_slice(&((8 + 2 * entries.len()) as u32).to_le_bytes());
    for e in entries {
        v.extend_from_slice(&e.to_le_bytes());
    }
    v
}

#[test]
fn parse_reads_entries_in_order() {
    let bytes = [0xffu8, 0x34, 0xA2, 0x0A, 0x00];
    let mut r = BaseRelocations::parse(&bytes, 1, 2).unwrap();
    assert_eq!(
        r.next(),
        Some(BaseRelocation { typ: 0xA, page_offset: 0x234, page_base_rva: 0 })
    );
    assert_eq!(
        r.next(),
        Some(BaseRelocation { typ: 0x0, page_offset: 0x00A, page_base_rva: 0 })
    );
    assert_eq!(r.next(), None);
}

#[test]
fn parse_rejects_out_of_bounds() {
    let bytes = [0u8; 4];
    assert_eq!(BaseRelocations::parse(&bytes, 1, 2).err(), Some(HyperlightError::PeFileMalformed(1)));
    assert!(BaseRelocations::parse(&bytes, 4, 0).is_err());
    assert!(BaseRelocations::parse(&bytes, 2, 1).is_ok());
}

#[test]
fn relocation_blocks_carry_their_page_rva() {
    let mut payload = vec![0u8; 16];
    let first = block(0x1000, &[0xA010, 0xA020]);
    let second = block(0x3000, &[0xA008]);
    let table_size = first.len() + second.len();
    payload.extend_from_slice(&first);
    payload.extend_from_slice(&second);
    payload.extend_from_slice(&[0u8; 4]);
    let relocs = read_relocation_blocks(&payload, 16, table_size).unwrap();
    assert_eq!(
        relocs,
        vec![
            BaseRelocation { typ: 0xA, page_offset: 0x10, page_base_rva: 0x1000 },
            BaseRelocation { typ: 0xA, page_offset: 0x20, page_base_rva: 0x1000 },
            BaseRelocation { typ: 0xA, page_offset: 0x8, page_base_rva: 0x3000 },
        ]
    );
}

#[test]
fn relocation_block_smaller_than_header_is_rejected() {
    let mut payload = 0x1000u32.to_le_bytes().to_vec();
    payload.extend_from_slice(&4u32.to_le_bytes());
    payload.extend_from_slice(&[0u8; 8]);
    assert_eq!(
        read_relocation_blocks(&payload, 0, 12).unwrap_err(),
        HyperlightError::PeFileMalformed(0)
    );
    assert!(read_relocation_blocks(&payload, 10, 8).is_err());
    assert_eq!(read_relocation_blocks(&payload, 0, 0).unwrap(), vec![]);
}

#[test]
fn base_relocations_from_the_directory() {
    let mut payload = vec![0u8; 8];
    let only = block(0x2000, &[0xA100]);
    let size = only.len() as u32;
    payload.extend_from_slice(&only);
    payload.push(0);
    assert_eq!(
        get_base_relocations(&payload, 8, size).unwrap(),
        vec![BaseRelocation { typ: 0xA, page_offset: 0x100, page_base_rva: 0x2000 }]
    );
    assert_eq!(get_base_relocations(&payload, 0, 0).unwrap(), vec![]);
    assert!(get_base_relocations(&payload, 100, 8).is_err());
}
