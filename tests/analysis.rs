use scroll_revm::analysis::{analyze, AnalysisData, OpInfo, OpcodeTable};
use scroll_revm::bytecode::{Bytecode, BytecodeState};
use scroll_revm::digest::{keccak_empty, poseidon_empty, CodeHashScheme};
use scroll_revm::word::B256;

const STOP: u8 = 0x00;
const JUMP: u8 = 0x56;
const JUMPDEST: u8 = 0x5b;
const PUSH1: u8 = 0x60;
const PUSH32: u8 = 0x7f;

fn table() -> OpcodeTable {
    let mut infos = vec![OpInfo::gas(3); 256];
    infos[STOP as usize] = OpInfo::gas_block_end(0);
    infos[JUMP as usize] = OpInfo::gas_block_end(8);
    infos[0x57] = OpInfo::gas_block_end(10);
    infos[JUMPDEST as usize] = OpInfo::jumpdest(1);
    for op in PUSH1..=PUSH32 {
        infos[op as usize] = OpInfo::push(3, op - PUSH1 + 1);
    }
    infos[0xf3] = OpInfo::gas_block_end(0);
    infos[0xfd] = OpInfo::gas_block_end(0);
    infos[0xfe] = OpInfo::gas_block_end(0);
    infos[0xff] = OpInfo::gas_block_end(5000);
    OpcodeTable::new(infos).unwrap()
}

fn analysed_table(code: Vec<u8>) -> (u64, Vec<AnalysisData>) {
    let locked = Bytecode::new_raw(code, CodeHashScheme::Keccak, B256::zero()).lock(&table());
    let jt = locked.jumptable();
    (jt.first_gas_block, jt.analysis.clone())
}

#[test]
fn table_len_equals_logical_len() {
    for code in [vec![], vec![PUSH1], vec![0x7f, 1, 2], vec![JUMPDEST, STOP, 0x01, 0x02, JUMP]] {
        let len = code.len();
        let b = Bytecode::new_raw(code, CodeHashScheme::Keccak, B256::zero()).to_checked();
        assert_eq!(b.bytes().len(), len + 33);
        let b = b.to_analysed(&table());
        assert_eq!(b.len(), len);
        match b.state() {
            BytecodeState::Analysed { len: l, jumptable } => {
                assert_eq!(*l, len);
                assert_eq!(jumptable.analysis.len(), len);
            }
            _ => panic!("not analysed"),
        }
    }
}

#[test]
fn halting_code_has_no_blocks() {
    let (first, entries) = analysed_table(vec![STOP; 5]);
    assert_eq!(first, 0);
    assert_eq!(entries, vec![AnalysisData::none(); 5]);
    let (first, entries) = analysed_table(vec![0xf3, 0xfd, 0xfe]);
    assert_eq!(first, 0);
    assert_eq!(entries, vec![AnalysisData::none(); 3]);
}

#[test]
fn jumpdest_flagged_push_operand_not() {
    let (first, entries) = analysed_table(vec![PUSH1, 0x05, JUMP, JUMPDEST, STOP]);
    assert!(entries[3].is_jump);
    assert!(!entries[1].is_jump);
    assert_eq!(entries.iter().filter(|e| e.is_jump).count(), 1);
    assert_eq!(first, 11);
    assert_eq!(entries[2], AnalysisData { is_jump: false, gas_block: 1 });
    assert_eq!(entries[3], AnalysisData { is_jump: true, gas_block: 0 });
    assert_eq!(entries[0], AnalysisData::none());
    assert_eq!(entries[4], AnalysisData::none());
}

#[test]
fn push_operand_that_looks_like_jumpdest_is_skipped() {
    let (_, entries) = analysed_table(vec![PUSH1, JUMPDEST, JUMP, JUMPDEST]);
    assert!(!entries[1].is_jump);
    assert!(entries[3].is_jump);
    let (_, entries) = analysed_table(vec![0x61, JUMPDEST, JUMPDEST, JUMPDEST]);
    assert!(!entries[1].is_jump);
    assert!(!entries[2].is_jump);
    assert!(entries[3].is_jump);
}

#[test]
fn trailing_block_gas_is_recorded() {
    // STOP closes the first block; three plain instructions follow to the end.
    let (first, entries) = analysed_table(vec![STOP, 0x01, 0x01, 0x01]);
    assert_eq!(first, 0);
    assert_eq!(entries[0].gas_block, 9);
    // No closing instruction: everything is the first block.
    let (first, entries) = analysed_table(vec![0x01, PUSH1, 0xff, 0x01]);
    assert_eq!(first, 9);
    assert_eq!(entries, vec![AnalysisData::none(); 4]);
}

#[test]
fn truncated_push_at_end() {
    let (first, entries) = analysed_table(vec![JUMPDEST, PUSH32, 1, 2]);
    assert_eq!(first, 1);
    assert_eq!(entries[0], AnalysisData { is_jump: true, gas_block: 3 });
    assert_eq!(entries.len(), 4);
}

#[test]
fn analyze_only_reads_the_logical_prefix() {
    let code = vec![STOP, 0x01, JUMPDEST, 0x01];
    let r = analyze(&code, 2, &table());
    assert_eq!(r.analysis.len(), 2);
    assert_eq!(r.analysis[0].gas_block, 3);
    assert!(r.is_valid(0) == false);
    assert!(!r.is_valid(5));
}

#[test]
fn opcode_table_rejects_push_that_ends_a_block() {
    let mut infos = vec![OpInfo::gas(3); 256];
    infos[0x60] = OpInfo { gas: 3, push_bytes: 1, gas_block_end: true, is_jump: false };
    assert!(OpcodeTable::new(infos).is_none());
    assert!(OpcodeTable::new(vec![OpInfo::gas(3); 255]).is_none());
}

#[test]
fn lock_and_unlock_keep_code_and_hashes() {
    let code = vec![PUSH1, 0x05, JUMP, JUMPDEST, STOP];
    let raw = Bytecode::new_raw(code.clone(), CodeHashScheme::Keccak, B256::zero());
    let hash = raw.hash();
    let locked = raw.lock(&table());
    assert_eq!(locked.len(), 5);
    assert!(!locked.is_empty());
    assert_eq!(locked.original_bytecode_slice(), &code[..]);
    assert_eq!(locked.bytecode().len(), 5 + 33);
    assert!(locked.hash() == hash);
    let back = locked.unlock();
    assert_eq!(back.len(), 5);
    assert!(back.keccak_hash() == hash);
}

#[test]
fn new_raw_hashes_the_code() {
    let empty = Bytecode::new_raw(vec![], CodeHashScheme::Keccak, B256::zero());
    assert!(empty.hash() == keccak_empty());
    assert!(empty.is_empty());
    let one = Bytecode::new_raw(vec![0x00], CodeHashScheme::Keccak, B256::zero());
    let expected: [u8; 32] = [
        0xbc, 0x36, 0x78, 0x9e, 0x7a, 0x1e, 0x28, 0x14, 0x36, 0x46, 0x42, 0x29, 0x82, 0x8f, 0x81, 0x7d,
        0x66, 0x12, 0xf7, 0xb4, 0x77, 0xd6, 0x65, 0x91, 0xff, 0x96, 0xa9, 0xe0, 0x64, 0xbc, 0xc9, 0x8a,
    ];
    assert_eq!(one.hash().bytes, expected);
    assert_eq!(one.keccak_hash().bytes, expected);
    assert_eq!(one.hash_slow().bytes, expected);
}

#[test]
fn default_bytecode_is_empty_and_padded() {
    let b = Bytecode::default();
    assert!(b.is_empty());
    assert_eq!(b.bytes(), &[0u8; 33][..]);
    assert!(b.hash() == poseidon_empty());
    assert!(b.keccak_hash() == keccak_empty());
    let mut padded = vec![0x01];
    padded.extend([0u8; 33]);
    let checked = Bytecode::new_checked(padded, 1, None, None, CodeHashScheme::Keccak).to_checked();
    assert_eq!(checked.len(), 1);
    assert!(!checked.is_empty());
}

#[test]
fn poseidon_scheme_takes_the_given_hash() {
    let given: B256 = [7; 32].into();
    let empty = Bytecode::new_raw(vec![], CodeHashScheme::Poseidon, given);
    assert!(empty.hash() == poseidon_empty());
    assert!(empty.keccak_hash() == keccak_empty());
    let one = Bytecode::new_raw(vec![0x00], CodeHashScheme::Poseidon, given);
    assert!(one.hash() == given);
    assert_eq!(one.keccak_hash().bytes[0], 0xbc);
    assert!(one.hash_slow() == given);
    assert_eq!(one.scheme(), CodeHashScheme::Poseidon);
}

#[test]
fn new_checked_hashes_only_the_code() {
    let mut padded = vec![0x00];
    padded.extend([0u8; 33]);
    let checked = Bytecode::new_checked(padded, 1, None, None, CodeHashScheme::Keccak);
    let raw = Bytecode::new_raw(vec![0x00], CodeHashScheme::Keccak, B256::zero());
    assert!(checked.hash() == raw.hash());
    assert!(checked.keccak_hash() == raw.keccak_hash());
    let empty = Bytecode::new_checked(vec![0u8; 33], 0, None, None, CodeHashScheme::Poseidon);
    assert!(empty.hash() == poseidon_empty());
    assert!(empty.keccak_hash() == keccak_empty());
}
