//! Contract code and its analysis states: raw, checked (padded) and analysed.
use crate::analysis::{
    analysis_entries, analysis_first_gas, analyze, lemma_entries_len, AnalysisData, OpInfo,
    OpcodeTable, ValidJumpAddress,
};
use crate::digest::{
    empty_code_hash, empty_code_hash_of, keccak256, keccak256_of, keccak_empty, keccak_empty_bytes,
    poseidon_empty, poseidon_empty_bytes, CodeHashScheme,
};
use crate::word::B256;
use vstd::prelude::*;
use vstd::slice::slice_subrange;

verus! {

/// Zero bytes appended after the code: one more than the widest push operand,
/// so that running off the end of any instruction reads a defined `STOP`.
pub const PADDING: usize = 33;

#[derive(Debug)]
pub enum BytecodeState {
    Raw,
    Checked { len: usize },
    Analysed { len: usize, jumptable: ValidJumpAddress },
}

/// The mathematical content of a [`BytecodeState`].
pub enum StateView {
    Raw,
    Checked { len: nat },
    Analysed { len: nat, first_gas_block: nat, table: Seq<AnalysisData> },
}

impl View for BytecodeState {
    type V = StateView;

    open spec fn view(&self) -> StateView {
        match self {
            BytecodeState::Raw => StateView::Raw,
            BytecodeState::Checked { len } => StateView::Checked { len: *len as nat },
            BytecodeState::Analysed { len, jumptable } => StateView::Analysed {
                len: *len as nat,
                first_gas_block: jumptable.first_gas_block as nat,
                table: jumptable.analysis@,
            },
        }
    }
}

/// The mathematical content of a [`Bytecode`]: the stored bytes (padded once
/// checked), the code hash under `scheme`, the Keccak-256 code hash and the
/// analysis state.
pub struct BytecodeView {
    pub bytes: Seq<u8>,
    pub hash: Seq<u8>,
    pub keccak_hash: Seq<u8>,
    pub state: StateView,
    pub scheme: CodeHashScheme,
}

/// `bytes` holds at least `PADDING` zero bytes after its first `len` bytes, and nothing else.
pub open spec fn padded(bytes: Seq<u8>, len: nat) -> bool {
    &&& bytes.len() >= len + PADDING
    &&& forall|i: int| len <= i < bytes.len() ==> bytes[i] == 0
}

/// Checked and analysed code is padded; an analysed table has one entry per code byte.
pub open spec fn bytecode_wf(v: BytecodeView) -> bool {
    match v.state {
        StateView::Raw => true,
        StateView::Checked { len } => padded(v.bytes, len),
        StateView::Analysed { len, table, .. } => padded(v.bytes, len) && table.len() == len,
    }
}

/// The length of the code itself, without padding.
pub open spec fn logical_len(v: BytecodeView) -> nat {
    match v.state {
        StateView::Raw => v.bytes.len(),
        StateView::Checked { len } => len,
        StateView::Analysed { len, .. } => len,
    }
}

/// The code itself, without padding.
pub open spec fn logical_code(v: BytecodeView) -> Seq<u8> {
    v.bytes.subrange(0, logical_len(v) as int)
}

/// The Keccak-256 code hash of `code`: the empty-code constant for empty code.
pub open spec fn keccak_code_hash_of(code: Seq<u8>) -> Seq<u8> {
    if code.len() == 0 { keccak_empty_bytes() } else { keccak256_of(code) }
}

/// The code hash of `code` under `scheme`: the scheme's empty-code constant for
/// empty code; else the Keccak-256 digest, or `poseidon`, the Poseidon hash the
/// caller computed.
pub open spec fn primary_hash_of(scheme: CodeHashScheme, code: Seq<u8>, poseidon: Seq<u8>) -> Seq<u8> {
    if code.len() == 0 {
        empty_code_hash(scheme)
    } else {
        match scheme {
            CodeHashScheme::Keccak => keccak256_of(code),
            CodeHashScheme::Poseidon => poseidon,
        }
    }
}

/// A given hash, or the one computed over `code`: the scheme's empty-code
/// constant for empty code, else the Keccak-256 digest.
pub open spec fn given_or_computed(h: Option<B256>, scheme: CodeHashScheme, code: Seq<u8>) -> Seq<u8> {
    match h {
        Some(h) => h.bytes@,
        None => if code.len() == 0 { empty_code_hash(scheme) } else { keccak256_of(code) },
    }
}

/// A hash can be left out only where it can be computed here: Poseidon
/// hashes of non-empty code come from the caller.
pub open spec fn hash_obtainable(h: Option<B256>, scheme: CodeHashScheme, len: nat) -> bool {
    scheme == CodeHashScheme::Poseidon && len > 0 ==> h is Some
}

/// Fresh raw code; `poseidon` is the caller's Poseidon hash of it.
pub open spec fn raw_view(bytes: Seq<u8>, scheme: CodeHashScheme, poseidon: Seq<u8>) -> BytecodeView {
    BytecodeView {
        bytes,
        hash: primary_hash_of(scheme, bytes, poseidon),
        keccak_hash: keccak_code_hash_of(bytes),
        state: StateView::Raw,
        scheme,
    }
}

/// The code hash recomputed from the code: Keccak-256 hashes are computed
/// again; a Poseidon hash of non-empty code is the one stored.
pub open spec fn slow_hash(v: BytecodeView) -> Seq<u8> {
    match v.scheme {
        CodeHashScheme::Keccak => keccak_code_hash_of(logical_code(v)),
        CodeHashScheme::Poseidon => if logical_len(v) == 0 { poseidon_empty_bytes() } else { v.hash },
    }
}

/// Raw code gets `PADDING` zero bytes and the checked state; other code is left as it is.
pub open spec fn checked_view(v: BytecodeView) -> BytecodeView {
    match v.state {
        StateView::Raw => BytecodeView {
            bytes: v.bytes + Seq::new(PADDING as nat, |i: int| 0u8),
            hash: v.hash,
            keccak_hash: v.keccak_hash,
            state: StateView::Checked { len: v.bytes.len() },
            scheme: v.scheme,
        },
        _ => v,
    }
}

/// Raw or checked code is checked and then analysed under opcode table `t`;
/// analysed code is left as it is.
pub open spec fn analysed_view(v: BytecodeView, t: Seq<OpInfo>) -> BytecodeView {
    match v.state {
        StateView::Analysed { .. } => v,
        _ => {
            let c = checked_view(v);
            let code = logical_code(v);
            BytecodeView {
                bytes: c.bytes,
                hash: c.hash,
                keccak_hash: c.keccak_hash,
                state: StateView::Analysed {
                    len: code.len(),
                    first_gas_block: analysis_first_gas(t, code),
                    table: analysis_entries(t, code),
                },
                scheme: c.scheme,
            }
        },
    }
}

/// Checking and then analysing any code leaves a table with one entry per byte
/// of the code itself, whatever the padding.
pub proof fn lemma_analysed_table_len(bytes: Seq<u8>, scheme: CodeHashScheme, poseidon: Seq<u8>, t: Seq<OpInfo>)
    ensures
        analysed_view(checked_view(raw_view(bytes, scheme, poseidon)), t).state matches StateView::Analysed {
            len,
            table,
            ..
        } && len == bytes.len() && table.len() == bytes.len(),
{
    let c = checked_view(raw_view(bytes, scheme, poseidon));
    assert(logical_code(c) =~= bytes);
    lemma_entries_len(t, bytes);
}

/// Empty analysed code under `scheme`, as [`Bytecode::empty`] makes it.
pub open spec fn empty_code_view(scheme: CodeHashScheme) -> BytecodeView {
    BytecodeView {
        bytes: Seq::new(PADDING as nat, |i: int| 0u8),
        hash: empty_code_hash(scheme),
        keccak_hash: keccak_empty_bytes(),
        state: StateView::Analysed { len: 0, first_gas_block: 0, table: Seq::empty() },
        scheme,
    }
}

/// Contract code with its two identity hashes and its analysis state.
#[derive(Debug)]
pub struct Bytecode {
    bytecode: Vec<u8>,
    hash: B256,
    keccak_hash: B256,
    state: BytecodeState,
    scheme: CodeHashScheme,
}

impl View for Bytecode {
    type V = BytecodeView;

    closed spec fn view(&self) -> BytecodeView {
        BytecodeView {
            bytes: self.bytecode@,
            hash: self.hash.bytes@,
            keccak_hash: self.keccak_hash.bytes@,
            state: self.state@,
            scheme: self.scheme,
        }
    }
}

/// `code` followed by `PADDING` zero bytes.
fn pad_code(code: Vec<u8>) -> (r: Vec<u8>)
    ensures
        r@ == code@ + Seq::new(PADDING as nat, |i: int| 0u8),
{
    let mut r = code;
    let mut k: usize = 0;
    while k < PADDING
        invariant
            k <= PADDING,
            r@ == code@ + Seq::new(k as nat, |i: int| 0u8),
        decreases PADDING - k,
    {
        r.push(0u8);
        k = k + 1;
        assert(r@ =~= code@ + Seq::new(k as nat, |i: int| 0u8));
    }
    r
}

/// A given hash, or the one computed over the first `len` bytes.
fn hash_or_compute(h: Option<B256>, scheme: CodeHashScheme, bytes: &Vec<u8>, len: usize) -> (r: B256)
    requires
        len <= bytes@.len(),
        hash_obtainable(h, scheme, len as nat),
    ensures
        r.bytes@ == given_or_computed(h, scheme, bytes@.subrange(0, len as int)),
{
    match h {
        Some(h) => h,
        None => if len == 0 {
            empty_code_hash_of(scheme)
        } else {
            keccak256(slice_subrange(bytes.as_slice(), 0, len))
        },
    }
}

/// Hands `v`'s code to the analysis: the padded bytes, the logical length,
/// both hashes, the table and the scheme.
fn analysed_parts(v: Bytecode, table: &OpcodeTable) -> (r: (Vec<u8>, usize, B256, B256, ValidJumpAddress, CodeHashScheme))
    ensures
        ({
            let a = analysed_view(v@, table@);
            &&& a.bytes == r.0@
            &&& a.hash == r.2.bytes@
            &&& a.keccak_hash == r.3.bytes@
            &&& a.state == (StateView::Analysed {
                len: r.1 as nat,
                first_gas_block: r.4.first_gas_block as nat,
                table: r.4.analysis@,
            })
            &&& a.scheme == r.5
            &&& bytecode_wf(a)
        }),
{
    proof {
        use_type_invariant(&v);
    }
    let Bytecode { bytecode, hash, keccak_hash, state, scheme } = v;
    match state {
        BytecodeState::Raw => {
            let len = bytecode.len();
            let jumptable = analyze(bytecode.as_slice(), len, table);
            assert(bytecode@.subrange(0, len as int) =~= bytecode@);
            let padded_code = pad_code(bytecode);
            (padded_code, len, hash, keccak_hash, jumptable, scheme)
        },
        BytecodeState::Checked { len } => {
            let jumptable = analyze(bytecode.as_slice(), len, table);
            (bytecode, len, hash, keccak_hash, jumptable, scheme)
        },
        BytecodeState::Analysed { len, jumptable } => (bytecode, len, hash, keccak_hash, jumptable, scheme),
    }
}

impl Bytecode {
    #[verifier::type_invariant]
    spec fn inv(&self) -> bool {
        bytecode_wf(self@)
    }

    /// Empty analysed code under the Poseidon scheme: nothing but padding.
    pub fn new() -> (r: Bytecode)
        ensures
            r@ == empty_code_view(CodeHashScheme::Poseidon),
    {
        Bytecode::empty(CodeHashScheme::Poseidon)
    }

    /// Empty analysed code under `scheme`: nothing but padding.
    pub fn empty(scheme: CodeHashScheme) -> (r: Bytecode)
        ensures
            r@ == empty_code_view(scheme),
    {
        let bytecode = pad_code(Vec::new());
        assert(bytecode@ =~= Seq::new(PADDING as nat, |i: int| 0u8));
        let jumptable = ValidJumpAddress { first_gas_block: 0, analysis: Vec::new() };
        Bytecode {
            bytecode,
            hash: empty_code_hash_of(scheme),
            keccak_hash: keccak_empty(),
            state: BytecodeState::Analysed { len: 0, jumptable },
            scheme,
        }
    }

    /// Raw code and its two hashes: the empty-code constants for empty code;
    /// else the Keccak-256 digest, and under the Poseidon scheme `poseidon_hash`,
    /// the Poseidon hash the caller computed (it is not read otherwise).
    pub fn new_raw(bytecode: Vec<u8>, scheme: CodeHashScheme, poseidon_hash: B256) -> (r: Bytecode)
        ensures
            r@ == raw_view(bytecode@, scheme, poseidon_hash.bytes@),
    {
        if bytecode.len() == 0 {
            return Bytecode {
                bytecode,
                hash: empty_code_hash_of(scheme),
                keccak_hash: keccak_empty(),
                state: BytecodeState::Raw,
                scheme,
            };
        }
        let keccak_hash = keccak256(bytecode.as_slice());
        let hash = match scheme {
            CodeHashScheme::Keccak => keccak_hash,
            CodeHashScheme::Poseidon => poseidon_hash,
        };
        Bytecode { bytecode, hash, keccak_hash, state: BytecodeState::Raw, scheme }
    }

    /// Raw code with hashes the caller already holds; they are not checked.
    pub fn new_raw_with_hash(bytecode: Vec<u8>, hash: B256, keccak_hash: B256, scheme: CodeHashScheme) -> (r: Bytecode)
        ensures
            r@ == (BytecodeView {
                bytes: bytecode@,
                hash: hash.bytes@,
                keccak_hash: keccak_hash.bytes@,
                state: StateView::Raw,
                scheme,
            }),
    {
        Bytecode { bytecode, hash, keccak_hash, state: BytecodeState::Raw, scheme }
    }

    /// Checked code from bytes that are already padded after `len`; a missing
    /// hash is computed over the first `len` bytes.
    pub fn new_checked(
        bytecode: Vec<u8>,
        len: usize,
        hash: Option<B256>,
        keccak_hash: Option<B256>,
        scheme: CodeHashScheme,
    ) -> (r: Bytecode)
        requires
            padded(bytecode@, len as nat),
            hash_obtainable(hash, scheme, len as nat),
        ensures
            r@ == (BytecodeView {
                bytes: bytecode@,
                hash: given_or_computed(hash, scheme, bytecode@.subrange(0, len as int)),
                keccak_hash: given_or_computed(keccak_hash, CodeHashScheme::Keccak, bytecode@.subrange(0, len as int)),
                state: StateView::Checked { len: len as nat },
                scheme,
            }),
    {
        let hash = hash_or_compute(hash, scheme, &bytecode, len);
        let keccak_hash = hash_or_compute(keccak_hash, CodeHashScheme::Keccak, &bytecode, len);
        Bytecode { bytecode, hash, keccak_hash, state: BytecodeState::Checked { len }, scheme }
    }

    /// Analysed code from parts that were analysed before; the table is taken as
    /// it is, and a missing hash is computed over the first `len` bytes.
    pub fn new_analysed(
        bytecode: Vec<u8>,
        len: usize,
        jumptable: ValidJumpAddress,
        hash: Option<B256>,
        keccak_hash: Option<B256>,
        scheme: CodeHashScheme,
    ) -> (r: Bytecode)
        requires
            padded(bytecode@, len as nat),
            jumptable.analysis@.len() == len,
            hash_obtainable(hash, scheme, len as nat),
        ensures
            r@ == (BytecodeView {
                bytes: bytecode@,
                hash: given_or_computed(hash, scheme, bytecode@.subrange(0, len as int)),
                keccak_hash: given_or_computed(keccak_hash, CodeHashScheme::Keccak, bytecode@.subrange(0, len as int)),
                state: StateView::Analysed {
                    len: len as nat,
                    first_gas_block: jumptable.first_gas_block as nat,
                    table: jumptable.analysis@,
                },
                scheme,
            }),
    {
        let hash = hash_or_compute(hash, scheme, &bytecode, len);
        let keccak_hash = hash_or_compute(keccak_hash, CodeHashScheme::Keccak, &bytecode, len);
        Bytecode { bytecode, hash, keccak_hash, state: BytecodeState::Analysed { len, jumptable }, scheme }
    }

    /// The code hash under the code's scheme, recomputed where it can be.
    pub fn hash_slow(&self) -> (r: B256)
        ensures
            r.bytes@ == slow_hash(self@),
    {
        proof {
            use_type_invariant(self);
        }
        match self.scheme {
            CodeHashScheme::Keccak => self.keccak_hash_slow(),
            CodeHashScheme::Poseidon => if self.len() == 0 { poseidon_empty() } else { self.hash },
        }
    }

    /// Computes the Keccak-256 code hash from the code itself.
    pub fn keccak_hash_slow(&self) -> (r: B256)
        ensures
            r.bytes@ == keccak_code_hash_of(logical_code(self@)),
    {
        proof {
            use_type_invariant(self);
        }
        let len = self.len();
        if len == 0 {
            keccak_empty()
        } else {
            keccak256(slice_subrange(self.bytecode.as_slice(), 0, len))
        }
    }

    /// The stored bytes, padding included.
    pub fn bytes(&self) -> (r: &[u8])
        ensures
            r@ == self@.bytes,
    {
        self.bytecode.as_slice()
    }

    /// The code hash under the code's scheme.
    pub fn hash(&self) -> (r: B256)
        ensures
            r.bytes@ == self@.hash,
    {
        self.hash
    }

    pub fn keccak_hash(&self) -> (r: B256)
        ensures
            r.bytes@ == self@.keccak_hash,
    {
        self.keccak_hash
    }

    pub fn scheme(&self) -> (r: CodeHashScheme)
        ensures
            r == self@.scheme,
    {
        self.scheme
    }

    pub fn state(&self) -> (r: &BytecodeState)
        ensures
            r@ == self@.state,
    {
        &self.state
    }

    /// Whether the code itself is empty.
    pub fn is_empty(&self) -> (r: bool)
        ensures
            r == (logical_len(self@) == 0),
    {
        self.len() == 0
    }

    /// The length of the code itself, without padding.
    pub fn len(&self) -> (r: usize)
        ensures
            r == logical_len(self@),
    {
        match &self.state {
            BytecodeState::Raw => self.bytecode.len(),
            BytecodeState::Checked { len } => *len,
            BytecodeState::Analysed { len, .. } => *len,
        }
    }

    /// Pads raw code; code in any other state is returned unchanged.
    pub fn to_checked(self) -> (r: Bytecode)
        ensures
            r@ == checked_view(self@),
    {
        proof {
            use_type_invariant(&self);
        }
        let Bytecode { bytecode, hash, keccak_hash, state, scheme } = self;
        match state {
            BytecodeState::Raw => {
                let len = bytecode.len();
                let bytecode = pad_code(bytecode);
                Bytecode { bytecode, hash, keccak_hash, state: BytecodeState::Checked { len }, scheme }
            },
            state => Bytecode { bytecode, hash, keccak_hash, state, scheme },
        }
    }

    /// Checks and analyses the code under `table`, unless it is analysed already.
    pub fn to_analysed(self, table: &OpcodeTable) -> (r: Bytecode)
        ensures
            r@ == analysed_view(self@, table@),
    {
        let (bytecode, len, hash, keccak_hash, jumptable, scheme) = analysed_parts(self, table);
        Bytecode { bytecode, hash, keccak_hash, state: BytecodeState::Analysed { len, jumptable }, scheme }
    }

    /// Analyses the code if needed and hands it to the execution loop.
    pub fn lock(self, table: &OpcodeTable) -> (r: BytecodeLocked)
        ensures
            r@ == analysed_view(self@, table@),
    {
        let (bytecode, len, hash, keccak_hash, jumptable, scheme) = analysed_parts(self, table);
        BytecodeLocked { bytecode, len, hash, keccak_hash, jumptable, scheme }
    }
}

impl Default for Bytecode {
    fn default() -> (r: Bytecode)
        ensures
            r@ == empty_code_view(CodeHashScheme::Poseidon),
    {
        Bytecode::new()
    }
}

/// Analysed code fixed for execution: padded bytes, logical length, hashes and
/// the jump table.
#[derive(Debug)]
pub struct BytecodeLocked {
    bytecode: Vec<u8>,
    len: usize,
    hash: B256,
    keccak_hash: B256,
    jumptable: ValidJumpAddress,
    scheme: CodeHashScheme,
}

impl View for BytecodeLocked {
    type V = BytecodeView;

    closed spec fn view(&self) -> BytecodeView {
        BytecodeView {
            bytes: self.bytecode@,
            hash: self.hash.bytes@,
            keccak_hash: self.keccak_hash.bytes@,
            state: StateView::Analysed {
                len: self.len as nat,
                first_gas_block: self.jumptable.first_gas_block as nat,
                table: self.jumptable.analysis@,
            },
            scheme: self.scheme,
        }
    }
}

impl BytecodeLocked {
    #[verifier::type_invariant]
    spec fn inv(&self) -> bool {
        bytecode_wf(self@)
    }

    pub fn len(&self) -> (r: usize)
        ensures
            r == logical_len(self@),
    {
        self.len
    }

    pub fn hash(&self) -> (r: B256)
        ensures
            r.bytes@ == self@.hash,
    {
        self.hash
    }

    pub fn keccak_hash(&self) -> (r: B256)
        ensures
            r.bytes@ == self@.keccak_hash,
    {
        self.keccak_hash
    }

    pub fn is_empty(&self) -> (r: bool)
        ensures
            r == (logical_len(self@) == 0),
    {
        self.len == 0
    }

    /// Back to an owned analysed [`Bytecode`].
    pub fn unlock(self) -> (r: Bytecode)
        ensures
            r@ == self@,
    {
        proof {
            use_type_invariant(&self);
        }
        let BytecodeLocked { bytecode, len, hash, keccak_hash, jumptable, scheme } = self;
        Bytecode { bytecode, hash, keccak_hash, state: BytecodeState::Analysed { len, jumptable }, scheme }
    }

    /// The stored bytes, padding included.
    pub fn bytecode(&self) -> (r: &[u8])
        ensures
            r@ == self@.bytes,
    {
        self.bytecode.as_slice()
    }

    /// The code itself, without padding.
    pub fn original_bytecode_slice(&self) -> (r: &[u8])
        ensures
            r@ == logical_code(self@),
    {
        proof {
            use_type_invariant(self);
        }
        slice_subrange(self.bytecode.as_slice(), 0, self.len)
    }

    pub fn jumptable(&self) -> (r: &ValidJumpAddress)
        ensures
            r.first_gas_block as nat == self@.state->Analysed_first_gas_block,
            r.analysis@ == self@.state->Analysed_table,
    {
        &self.jumptable
    }
}

} // verus!
