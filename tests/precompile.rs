use scroll_revm::digest::poseidon_messages;
use scroll_revm::precompile::{disable_run, ripemd160_run, sha256_run, PrecompileError};

#[test]
fn sha256_of_empty_input() {
    let (gas, out) = sha256_run(&[], 100).unwrap();
    assert_eq!(gas, 60);
    assert_eq!(
        out,
        vec![
            0xe3, 0xb0, 0xc4, 0x42, 0x98, 0xfc, 0x1c, 0x14, 0x9a, 0xfb, 0xf4, 0xc8, 0x99, 0x6f, 0xb9, 0x24,
            0x27, 0xae, 0x41, 0xe4, 0x64, 0x9b, 0x93, 0x4c, 0xa4, 0x95, 0x99, 0x1b, 0x78, 0x52, 0xb8, 0x55,
        ]
    );
}

#[test]
fn sha256_out_of_gas() {
    assert_eq!(sha256_run(&[], 59), Err(PrecompileError::OutOfGas));
    // 33 bytes are two words: 60 + 2 * 12.
    assert_eq!(sha256_run(&[0u8; 33], 84).unwrap().0, 84);
    assert_eq!(sha256_run(&[0u8; 33], 83), Err(PrecompileError::OutOfGas));
}

#[test]
fn ripemd160_of_empty_input() {
    let (gas, out) = ripemd160_run(&[], 600).unwrap();
    assert_eq!(gas, 600);
    let mut expected = vec![0u8; 12];
    expected.extend([
        0x9c, 0x11, 0x85, 0xa5, 0xc5, 0xe9, 0xfc, 0x54, 0x61, 0x28, 0x08, 0x97, 0x7e, 0xe8, 0xf5, 0x48,
        0xb2, 0x25, 0x8d, 0x31,
    ]);
    assert_eq!(out, expected);
    assert_eq!(ripemd160_run(&[1; 32], 719), Err(PrecompileError::OutOfGas));
}

#[test]
fn disabled_precompile_always_fails() {
    assert_eq!(disable_run(&[1, 2, 3], u64::MAX), Err(PrecompileError::OutOfGas));
}

#[test]
fn poseidon_messages_pack_big_endian_chunks() {
    assert!(poseidon_messages(&[]).is_empty());
    let code: Vec<u8> = (1..=32).collect();
    let msgs = poseidon_messages(&code);
    assert_eq!(msgs.len(), 2);
    let mut first = [0u8; 32];
    for j in 0..31 {
        first[j] = code[30 - j];
    }
    assert_eq!(msgs[0], first);
    let mut second = [0u8; 32];
    second[30] = 32;
    assert_eq!(msgs[1], second);
    assert_eq!(poseidon_messages(&[0u8; 31]).len(), 1);
}
