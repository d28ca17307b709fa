use zk_token::resolver::{index_le_bytes, resolve_address};

fn namespace() -> Vec<u8> {
    vec![7u8; 32]
}

#[test]
fn index_le_bytes_encodes_little_endian() {
    assert_eq!(index_le_bytes(0), vec![0u8; 8]);
    assert_eq!(index_le_bytes(1), vec![1u8, 0, 0, 0, 0, 0, 0, 0]);
    assert_eq!(
        index_le_bytes(0x0102030405060708),
        vec![8u8, 7, 6, 5, 4, 3, 2, 1]
    );
    assert_eq!(index_le_bytes(u64::MAX), vec![0xffu8; 8]);
    assert_eq!(index_le_bytes(42), 42u64.to_le_bytes().to_vec());
}

#[test]
fn resolution_is_deterministic() {
    let tag = b"config".to_vec();
    let r1 = resolve_address(&namespace(), &tag, &Vec::new()).unwrap();
    let r2 = resolve_address(&namespace(), &tag, &Vec::new()).unwrap();
    assert_eq!(r1, r2);
    assert_eq!(r1.0.len(), 32);
}

#[test]
fn resolution_matches_program_derived_address() {
    let pid = solana_pubkey::Pubkey::new_from_array([7u8; 32]);
    let (addr, bump) = solana_pubkey::Pubkey::find_program_address(&[b"config"], &pid);
    let (lib_addr, lib_bump) =
        resolve_address(&namespace(), &b"config".to_vec(), &Vec::new()).unwrap();
    assert_eq!(lib_addr, addr.to_bytes().to_vec());
    assert_eq!(lib_bump, bump);

    let (rec_addr, _) =
        solana_pubkey::Pubkey::find_program_address(&[b"mint_record", &1u64.to_le_bytes()], &pid);
    let (lib_rec_addr, _) =
        resolve_address(&namespace(), &b"mint_record".to_vec(), &index_le_bytes(1)).unwrap();
    assert_eq!(lib_rec_addr, rec_addr.to_bytes().to_vec());
}

#[test]
fn distinct_suffixes_resolve_to_distinct_addresses() {
    let tag = b"mint_record".to_vec();
    let r1 = resolve_address(&namespace(), &tag, &index_le_bytes(1)).unwrap();
    let r2 = resolve_address(&namespace(), &tag, &index_le_bytes(2)).unwrap();
    assert_ne!(r1.0, r2.0);
}

#[test]
fn oversized_seed_fails_resolution() {
    let tag = vec![3u8; 33];
    assert!(resolve_address(&namespace(), &tag, &Vec::new()).is_none());
}
