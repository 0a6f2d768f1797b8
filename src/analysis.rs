//! Static analysis of instruction streams: jump-destination flags and
//! per-block gas totals.
use vstd::prelude::*;

verus! {

/// What the analysis needs to know about one opcode.
#[derive(Clone, Copy, Debug, PartialEq, Eq, Structural)]
pub struct OpInfo {
    /// Static gas charged for the instruction.
    pub gas: u32,
    /// Number of immediate operand bytes that follow the opcode (zero unless a push).
    pub push_bytes: u8,
    /// The instruction closes a straight-line block (a jump, a halt, a jump destination).
    pub gas_block_end: bool,
    /// The instruction is a valid jump destination.
    pub is_jump: bool,
}

impl OpInfo {
    /// An ordinary instruction of the given static cost.
    pub fn gas(gas: u32) -> (r: OpInfo)
        ensures
            r == (OpInfo { gas, push_bytes: 0, gas_block_end: false, is_jump: false }),
    {
        OpInfo { gas, push_bytes: 0, gas_block_end: false, is_jump: false }
    }

    /// An instruction that closes the current block.
    pub fn gas_block_end(gas: u32) -> (r: OpInfo)
        ensures
            r == (OpInfo { gas, push_bytes: 0, gas_block_end: true, is_jump: false }),
    {
        OpInfo { gas, push_bytes: 0, gas_block_end: true, is_jump: false }
    }

    /// A jump destination, which also opens a new block.
    pub fn jumpdest(gas: u32) -> (r: OpInfo)
        ensures
            r == (OpInfo { gas, push_bytes: 0, gas_block_end: true, is_jump: true }),
    {
        OpInfo { gas, push_bytes: 0, gas_block_end: true, is_jump: true }
    }

    /// A push of `width` immediate bytes.
    pub fn push(gas: u32, width: u8) -> (r: OpInfo)
        ensures
            r == (OpInfo { gas, push_bytes: width, gas_block_end: false, is_jump: false }),
    {
        OpInfo { gas, push_bytes: width, gas_block_end: false, is_jump: false }
    }
}

/// A table of the 256 opcodes of one fork.
pub struct OpcodeTable {
    infos: Vec<OpInfo>,
}

/// A well-formed table has an entry for every byte value, and no push closes a block.
pub open spec fn table_wf(t: Seq<OpInfo>) -> bool {
    &&& t.len() == 256
    &&& forall|i: int| 0 <= i < 256 && (#[trigger] t[i]).push_bytes > 0 ==> !t[i].gas_block_end
}

impl View for OpcodeTable {
    type V = Seq<OpInfo>;

    closed spec fn view(&self) -> Seq<OpInfo> {
        self.infos@
    }
}

impl OpcodeTable {
    #[verifier::type_invariant]
    spec fn inv(&self) -> bool {
        table_wf(self.infos@)
    }

    /// Builds a table, or `None` when `infos` is not well formed.
    pub fn new(infos: Vec<OpInfo>) -> (r: Option<OpcodeTable>)
        ensures
            r is Some <==> table_wf(infos@),
            r matches Some(t) ==> t@ == infos@,
    {
        if infos.len() != 256 {
            return None;
        }
        let mut i: usize = 0;
        while i < 256
            invariant
                infos@.len() == 256,
                0 <= i <= 256,
                forall|j: int| 0 <= j < i && (#[trigger] infos@[j]).push_bytes > 0 ==> !infos@[j].gas_block_end,
            decreases 256 - i,
        {
            if infos[i].push_bytes > 0 && infos[i].gas_block_end {
                return None;
            }
            i = i + 1;
        }
        Some(OpcodeTable { infos })
    }

    pub fn get(&self, op: u8) -> (r: OpInfo)
        ensures
            r == self@[op as int],
    {
        proof {
            use_type_invariant(self);
        }
        self.infos[op as usize]
    }
}

/// Per-position result of the analysis.
#[derive(Clone, Copy, Debug, PartialEq, Eq, Structural)]
pub struct AnalysisData {
    /// The position holds a valid jump destination.
    pub is_jump: bool,
    /// Gas total of the block that starts here; zero where no block starts.
    pub gas_block: u64,
}

impl AnalysisData {
    pub open spec fn spec_none() -> AnalysisData {
        AnalysisData { is_jump: false, gas_block: 0 }
    }

    pub fn none() -> (r: AnalysisData)
        ensures
            r == AnalysisData::spec_none(),
    {
        AnalysisData { is_jump: false, gas_block: 0 }
    }
}

/// The analysis of one code body: the gas charged before the first instruction
/// runs, and one entry per position.
#[derive(Clone, Debug)]
pub struct ValidJumpAddress {
    pub first_gas_block: u64,
    pub analysis: Vec<AnalysisData>,
}

impl ValidJumpAddress {
    /// Whether `position` is a valid jump destination.
    pub fn is_valid(&self, position: usize) -> (r: bool)
        ensures
            r == (position < self.analysis@.len() && self.analysis@[position as int].is_jump),
    {
        position < self.analysis.len() && self.analysis[position].is_jump
    }

    /// The gas total of the block that starts at `position` (zero elsewhere).
    pub fn gas_block(&self, position: usize) -> (r: u64)
        requires
            position < self.analysis@.len(),
        ensures
            r == self.analysis@[position as int].gas_block,
    {
        self.analysis[position].gas_block
    }
}

/// Gas totals saturate at `u64::MAX`.
pub open spec fn sat_add(acc: nat, gas: nat) -> nat {
    if acc + gas <= u64::MAX { acc + gas } else { u64::MAX as nat }
}

/// The entry for the opcode at position `i`.
pub open spec fn op_at(t: Seq<OpInfo>, code: Seq<u8>, i: int) -> OpInfo {
    t[code[i] as int]
}

/// The position of the instruction that follows the one at `i`: push operands are skipped.
pub open spec fn next_pos(t: Seq<OpInfo>, code: Seq<u8>, i: int) -> int {
    i + 1 + (op_at(t, code, i).push_bytes as int)
}

/// Scan of the first block from position `i` with `acc` gas so far: the block's
/// gas total, and the position of the instruction that closed it (-1 if none did).
pub open spec fn first_block(t: Seq<OpInfo>, code: Seq<u8>, i: int, acc: nat) -> (nat, int)
    decreases (if i < code.len() { code.len() - i } else { 0 }),
{
    if i < 0 || i >= code.len() {
        (acc, -1)
    } else {
        let info = op_at(t, code, i);
        let acc2 = sat_add(acc, info.gas as nat);
        if info.gas_block_end {
            (acc2, i)
        } else {
            first_block(t, code, i + 1 + (info.push_bytes as int), acc2)
        }
    }
}

/// `entries` with the gas total at `position` set to `gas`.
pub open spec fn with_gas(entries: Seq<AnalysisData>, position: int, gas: nat) -> Seq<AnalysisData> {
    entries.update(position, AnalysisData { is_jump: entries[position].is_jump, gas_block: gas as u64 })
}

/// `entries` with `position` flagged as a jump destination.
pub open spec fn with_jump(entries: Seq<AnalysisData>, position: int) -> Seq<AnalysisData> {
    entries.update(position, AnalysisData { is_jump: true, gas_block: entries[position].gas_block })
}

/// Scan of the later blocks from position `i`: the block open since `start` has
/// `gas` so far; a closing instruction records that total at `start` and opens a
/// block at its own position.
pub open spec fn later_blocks(
    t: Seq<OpInfo>,
    code: Seq<u8>,
    i: int,
    start: int,
    gas: nat,
    entries: Seq<AnalysisData>,
) -> Seq<AnalysisData>
    decreases (if i < code.len() { code.len() - i } else { 0 }),
{
    if i < 0 || i >= code.len() {
        if gas != 0 { with_gas(entries, start, gas) } else { entries }
    } else {
        let info = op_at(t, code, i);
        let gas2 = sat_add(gas, info.gas as nat);
        if info.gas_block_end {
            let flagged = if info.is_jump { with_jump(entries, i) } else { entries };
            later_blocks(t, code, i + 1, i, 0, with_gas(flagged, start, gas2))
        } else {
            later_blocks(t, code, i + 1 + (info.push_bytes as int), start, gas2, entries)
        }
    }
}

/// The gas charged before the first instruction runs.
pub open spec fn analysis_first_gas(t: Seq<OpInfo>, code: Seq<u8>) -> nat {
    first_block(t, code, 0, 0).0
}

/// The per-position table of a code body.
pub open spec fn analysis_entries(t: Seq<OpInfo>, code: Seq<u8>) -> Seq<AnalysisData> {
    let end = first_block(t, code, 0, 0).1;
    let none = Seq::new(code.len(), |i: int| AnalysisData::spec_none());
    if end < 0 {
        none
    } else {
        let start = if op_at(t, code, end).is_jump { with_jump(none, end) } else { none };
        later_blocks(t, code, end + 1, end, 0, start)
    }
}

proof fn lemma_later_blocks_len(
    t: Seq<OpInfo>,
    code: Seq<u8>,
    i: int,
    start: int,
    gas: nat,
    entries: Seq<AnalysisData>,
)
    requires
        0 <= start < code.len(),
        start < i,
        entries.len() == code.len(),
    ensures
        later_blocks(t, code, i, start, gas, entries).len() == code.len(),
    decreases (if i < code.len() { code.len() - i } else { 0 }),
{
    if i < code.len() {
        let info = op_at(t, code, i);
        let gas2 = sat_add(gas, info.gas as nat);
        if info.gas_block_end {
            let flagged = if info.is_jump { with_jump(entries, i) } else { entries };
            lemma_later_blocks_len(t, code, i + 1, i, 0, with_gas(flagged, start, gas2));
        } else {
            lemma_later_blocks_len(t, code, i + 1 + (info.push_bytes as int), start, gas2, entries);
        }
    }
}

proof fn lemma_first_block_end(t: Seq<OpInfo>, code: Seq<u8>, i: int, acc: nat)
    requires
        0 <= i,
        i < code.len() ==> is_instruction_start(t, code, i),
    ensures
        first_block(t, code, i, acc).1 >= 0 ==> {
            let e = first_block(t, code, i, acc).1;
            &&& i <= e < code.len()
            &&& is_instruction_start(t, code, e)
            &&& op_at(t, code, e).gas_block_end
        },
    decreases (if i < code.len() { code.len() - i } else { 0 }),
{
    if i < code.len() && !op_at(t, code, i).gas_block_end {
        let n = next_pos(t, code, i);
        lemma_reaches_next(t, code, 0, i);
        lemma_first_block_end(t, code, n, sat_add(acc, op_at(t, code, i).gas as nat));
    }
}

/// The table has one entry per byte of the code analysed.
pub proof fn lemma_entries_len(t: Seq<OpInfo>, code: Seq<u8>)
    ensures
        analysis_entries(t, code).len() == code.len(),
{
    let end = first_block(t, code, 0, 0).1;
    lemma_first_block_end(t, code, 0, 0);
    if end >= 0 {
        let none = Seq::new(code.len(), |i: int| AnalysisData::spec_none());
        let start = if op_at(t, code, end).is_jump { with_jump(none, end) } else { none };
        lemma_later_blocks_len(t, code, end + 1, end, 0, start);
    }
}

/// Stepping from instruction start `i` reaches position `p`.
pub open spec fn reaches(t: Seq<OpInfo>, code: Seq<u8>, i: int, p: int) -> bool
    decreases (if i < p { p - i } else { 0 }),
{
    if i == p {
        true
    } else if i > p || i < 0 || i >= code.len() {
        false
    } else {
        reaches(t, code, i + 1 + (op_at(t, code, i).push_bytes as int), p)
    }
}

/// Position `p` holds an opcode, not a push operand: stepping from the start of
/// the code lands on it.
pub open spec fn is_instruction_start(t: Seq<OpInfo>, code: Seq<u8>, p: int) -> bool {
    reaches(t, code, 0, p)
}

proof fn lemma_reaches_next(t: Seq<OpInfo>, code: Seq<u8>, a: int, b: int)
    requires
        reaches(t, code, a, b),
        0 <= b < code.len(),
    ensures
        reaches(t, code, a, next_pos(t, code, b)),
    decreases (if a < b { b - a } else { 0 }),
{
    let n = next_pos(t, code, b);
    if a == b {
        assert(reaches(t, code, n, n));
    } else {
        lemma_reaches_next(t, code, next_pos(t, code, a), b);
    }
}

/// Every flagged position holds a jump destination at an instruction start.
pub open spec fn flags_sound(t: Seq<OpInfo>, code: Seq<u8>, entries: Seq<AnalysisData>) -> bool {
    forall|p: int|
        0 <= p < entries.len() && (#[trigger] entries[p]).is_jump ==> {
            &&& is_instruction_start(t, code, p)
            &&& op_at(t, code, p).is_jump
            &&& op_at(t, code, p).gas_block_end
        }
}

proof fn lemma_later_blocks_sound(
    t: Seq<OpInfo>,
    code: Seq<u8>,
    i: int,
    start: int,
    gas: nat,
    entries: Seq<AnalysisData>,
)
    requires
        table_wf(t),
        0 <= start < code.len(),
        start < i,
        entries.len() == code.len(),
        i < code.len() ==> is_instruction_start(t, code, i),
        flags_sound(t, code, entries),
    ensures
        flags_sound(t, code, later_blocks(t, code, i, start, gas, entries)),
    decreases (if i < code.len() { code.len() - i } else { 0 }),
{
    if i >= code.len() {
        if gas != 0 {
            let r = with_gas(entries, start, gas);
            assert forall|p: int| 0 <= p < r.len() && (#[trigger] r[p]).is_jump implies {
                &&& is_instruction_start(t, code, p)
                &&& op_at(t, code, p).is_jump
                &&& op_at(t, code, p).gas_block_end
            } by {
                assert(entries[p].is_jump);
            }
        }
    } else {
        let info = op_at(t, code, i);
        let gas2 = sat_add(gas, info.gas as nat);
        lemma_reaches_next(t, code, 0, i);
        if info.gas_block_end {
            assert(info.push_bytes == 0);
            let flagged = if info.is_jump { with_jump(entries, i) } else { entries };
            let r = with_gas(flagged, start, gas2);
            assert forall|p: int| 0 <= p < r.len() && (#[trigger] r[p]).is_jump implies {
                &&& is_instruction_start(t, code, p)
                &&& op_at(t, code, p).is_jump
                &&& op_at(t, code, p).gas_block_end
            } by {
                assert(flagged[p].is_jump);
                if p != i {
                    assert(entries[p].is_jump);
                }
            }
            lemma_later_blocks_sound(t, code, i + 1, i, 0, r);
        } else {
            lemma_later_blocks_sound(t, code, next_pos(t, code, i), start, gas2, entries);
        }
    }
}

/// Under a well-formed table, only instruction starts whose opcode is a jump
/// destination are flagged: a push operand never is, whatever its value.
pub proof fn lemma_flags_sound(t: Seq<OpInfo>, code: Seq<u8>)
    requires
        table_wf(t),
    ensures
        flags_sound(t, code, analysis_entries(t, code)),
{
    let end = first_block(t, code, 0, 0).1;
    let none = Seq::new(code.len(), |i: int| AnalysisData::spec_none());
    lemma_first_block_end(t, code, 0, 0);
    assert(flags_sound(t, code, none));
    if end >= 0 {
        let start = if op_at(t, code, end).is_jump { with_jump(none, end) } else { none };
        assert(flags_sound(t, code, start));
        lemma_reaches_next(t, code, 0, end);
        assert(op_at(t, code, end).push_bytes == 0);
        lemma_later_blocks_sound(t, code, end + 1, end, 0, start);
    }
}

/// Two instruction starts: the later one is reached from the earlier one.
proof fn lemma_reaches_between(t: Seq<OpInfo>, code: Seq<u8>, a: int, i: int, q: int)
    requires
        reaches(t, code, a, i),
        reaches(t, code, a, q),
        i <= q,
    ensures
        reaches(t, code, i, q),
    decreases (if a < i { i - a } else { 0 }),
{
    if a != i {
        lemma_reaches_between(t, code, next_pos(t, code, a), i, q);
    }
}

proof fn lemma_first_block_passes(t: Seq<OpInfo>, code: Seq<u8>, i: int, acc: nat, q: int)
    requires
        0 <= i,
        reaches(t, code, i, q),
        q < code.len(),
        first_block(t, code, i, acc).1 < 0 || q < first_block(t, code, i, acc).1,
    ensures
        !op_at(t, code, q).gas_block_end,
    decreases (if i < code.len() { code.len() - i } else { 0 }),
{
    if i < code.len() && i != q {
        let info = op_at(t, code, i);
        if !info.gas_block_end {
            lemma_first_block_passes(t, code, next_pos(t, code, i), sat_add(acc, info.gas as nat), q);
        }
    }
}

proof fn lemma_later_blocks_keep_flags(
    t: Seq<OpInfo>,
    code: Seq<u8>,
    i: int,
    start: int,
    gas: nat,
    entries: Seq<AnalysisData>,
    q: int,
)
    requires
        0 <= start < code.len(),
        start < i,
        entries.len() == code.len(),
        0 <= q < code.len(),
        entries[q].is_jump,
    ensures
        later_blocks(t, code, i, start, gas, entries)[q].is_jump,
    decreases (if i < code.len() { code.len() - i } else { 0 }),
{
    if i < code.len() {
        let info = op_at(t, code, i);
        let gas2 = sat_add(gas, info.gas as nat);
        if info.gas_block_end {
            let flagged = if info.is_jump { with_jump(entries, i) } else { entries };
            lemma_later_blocks_keep_flags(t, code, i + 1, i, 0, with_gas(flagged, start, gas2), q);
        } else {
            lemma_later_blocks_keep_flags(t, code, next_pos(t, code, i), start, gas2, entries, q);
        }
    }
}

proof fn lemma_later_blocks_complete(
    t: Seq<OpInfo>,
    code: Seq<u8>,
    i: int,
    start: int,
    gas: nat,
    entries: Seq<AnalysisData>,
    q: int,
)
    requires
        table_wf(t),
        0 <= start < code.len(),
        start < i,
        entries.len() == code.len(),
        0 <= q < code.len(),
        reaches(t, code, i, q),
        op_at(t, code, q).is_jump,
        op_at(t, code, q).gas_block_end,
    ensures
        later_blocks(t, code, i, start, gas, entries)[q].is_jump,
    decreases (if i < code.len() { code.len() - i } else { 0 }),
{
    let info = op_at(t, code, i);
    let gas2 = sat_add(gas, info.gas as nat);
    if info.gas_block_end {
        assert(info.push_bytes == 0);
        let flagged = if info.is_jump { with_jump(entries, i) } else { entries };
        let next = with_gas(flagged, start, gas2);
        if q == i {
            lemma_later_blocks_keep_flags(t, code, i + 1, i, 0, next, q);
        } else {
            lemma_later_blocks_complete(t, code, i + 1, i, 0, next, q);
        }
    } else {
        lemma_later_blocks_complete(t, code, next_pos(t, code, i), start, gas2, entries, q);
    }
}

/// Under a well-formed table, a position is flagged exactly when it holds a
/// jump destination at an instruction start.
pub proof fn lemma_flags_exact(t: Seq<OpInfo>, code: Seq<u8>, p: int)
    requires
        table_wf(t),
        0 <= p < code.len(),
    ensures
        analysis_entries(t, code)[p].is_jump <==> (is_instruction_start(t, code, p) && op_at(t, code, p).is_jump
            && op_at(t, code, p).gas_block_end),
{
    lemma_flags_sound(t, code);
    lemma_entries_len(t, code);
    if is_instruction_start(t, code, p) && op_at(t, code, p).is_jump && op_at(t, code, p).gas_block_end {
        let end = first_block(t, code, 0, 0).1;
        let none = Seq::new(code.len(), |i: int| AnalysisData::spec_none());
        if end < 0 || p < end {
            lemma_first_block_passes(t, code, 0, 0, p);
        } else {
            lemma_first_block_end(t, code, 0, 0);
            let start = if op_at(t, code, end).is_jump { with_jump(none, end) } else { none };
            if p == end {
                lemma_later_blocks_keep_flags(t, code, end + 1, end, 0, start, p);
            } else {
                lemma_reaches_between(t, code, 0, end, p);
                assert(op_at(t, code, end).push_bytes == 0);
                lemma_later_blocks_complete(t, code, end + 1, end, 0, start, p);
            }
        }
    }
}

/// No entry at or after `i` has been written.
pub open spec fn untouched_from(entries: Seq<AnalysisData>, i: int) -> bool {
    forall|q: int| i <= q < entries.len() ==> #[trigger] entries[q] == AnalysisData::spec_none()
}

proof fn lemma_later_blocks_frame(
    t: Seq<OpInfo>,
    code: Seq<u8>,
    i: int,
    start: int,
    gas: nat,
    entries: Seq<AnalysisData>,
    q: int,
)
    requires
        0 <= q < start < code.len(),
        start < i,
        entries.len() == code.len(),
    ensures
        later_blocks(t, code, i, start, gas, entries)[q] == entries[q],
    decreases (if i < code.len() { code.len() - i } else { 0 }),
{
    if i < code.len() {
        let info = op_at(t, code, i);
        let gas2 = sat_add(gas, info.gas as nat);
        if info.gas_block_end {
            let flagged = if info.is_jump { with_jump(entries, i) } else { entries };
            lemma_later_blocks_frame(t, code, i + 1, i, 0, with_gas(flagged, start, gas2), q);
        } else {
            lemma_later_blocks_frame(t, code, next_pos(t, code, i), start, gas2, entries, q);
        }
    }
}

proof fn lemma_later_blocks_total(
    t: Seq<OpInfo>,
    code: Seq<u8>,
    i: int,
    start: int,
    gas: nat,
    entries: Seq<AnalysisData>,
)
    requires
        0 <= start < code.len(),
        start < i,
        entries.len() == code.len(),
        entries[start].gas_block == 0,
        gas <= u64::MAX,
    ensures
        later_blocks(t, code, i, start, gas, entries)[start].gas_block as nat == first_block(t, code, i, gas).0,
    decreases (if i < code.len() { code.len() - i } else { 0 }),
{
    if i < code.len() {
        let info = op_at(t, code, i);
        let gas2 = sat_add(gas, info.gas as nat);
        if info.gas_block_end {
            let flagged = if info.is_jump { with_jump(entries, i) } else { entries };
            lemma_later_blocks_frame(t, code, i + 1, i, 0, with_gas(flagged, start, gas2), start);
        } else {
            lemma_later_blocks_total(t, code, next_pos(t, code, i), start, gas2, entries);
        }
    }
}

proof fn lemma_later_blocks_start(
    t: Seq<OpInfo>,
    code: Seq<u8>,
    i: int,
    start: int,
    gas: nat,
    entries: Seq<AnalysisData>,
    p: int,
)
    requires
        table_wf(t),
        0 <= start < code.len(),
        start < i,
        entries.len() == code.len(),
        untouched_from(entries, i),
        0 <= p < code.len(),
        reaches(t, code, i, p),
        op_at(t, code, p).gas_block_end,
    ensures
        later_blocks(t, code, i, start, gas, entries)[p].gas_block as nat == first_block(t, code, p + 1, 0).0,
    decreases (if i < code.len() { code.len() - i } else { 0 }),
{
    let info = op_at(t, code, i);
    let gas2 = sat_add(gas, info.gas as nat);
    if info.gas_block_end {
        assert(info.push_bytes == 0);
        let flagged = if info.is_jump { with_jump(entries, i) } else { entries };
        let next = with_gas(flagged, start, gas2);
        assert(entries[i] == AnalysisData::spec_none());
        if p == i {
            lemma_later_blocks_total(t, code, i + 1, i, 0, next);
        } else {
            assert(untouched_from(next, i + 1)) by {
                assert forall|q: int| i + 1 <= q < next.len() implies #[trigger] next[q] == AnalysisData::spec_none() by {
                    assert(entries[q] == AnalysisData::spec_none());
                }
            }
            lemma_later_blocks_start(t, code, i + 1, i, 0, next, p);
        }
    } else {
        let n = next_pos(t, code, i);
        assert(untouched_from(entries, n)) by {
            assert forall|q: int| n <= q < entries.len() implies #[trigger] entries[q] == AnalysisData::spec_none() by {
                assert(entries[q] == AnalysisData::spec_none());
            }
        }
        lemma_later_blocks_start(t, code, n, start, gas2, entries, p);
    }
}

/// Under a well-formed table, every block-closing instruction opens a block:
/// its entry holds the gas of the instructions that follow it up to and
/// including the next block-closing one (or up to the end of the code),
/// summed with saturation. The first block's gas is charged up front.
pub proof fn lemma_block_gas(t: Seq<OpInfo>, code: Seq<u8>, p: int)
    requires
        table_wf(t),
        0 <= p < code.len(),
        is_instruction_start(t, code, p),
        op_at(t, code, p).gas_block_end,
    ensures
        analysis_entries(t, code)[p].gas_block as nat == first_block(t, code, p + 1, 0).0,
{
    let end = first_block(t, code, 0, 0).1;
    let none = Seq::new(code.len(), |i: int| AnalysisData::spec_none());
    lemma_first_block_end(t, code, 0, 0);
    if end < 0 || p < end {
        lemma_first_block_passes(t, code, 0, 0, p);
    } else {
        let start = if op_at(t, code, end).is_jump { with_jump(none, end) } else { none };
        if p == end {
            lemma_later_blocks_total(t, code, end + 1, end, 0, start);
        } else {
            lemma_reaches_between(t, code, 0, end, p);
            assert(op_at(t, code, end).push_bytes == 0);
            assert(untouched_from(start, end + 1)) by {
                assert forall|q: int| end + 1 <= q < start.len() implies #[trigger] start[q] == AnalysisData::spec_none() by {
                    assert(none[q] == AnalysisData::spec_none());
                }
            }
            lemma_later_blocks_start(t, code, end + 1, end, 0, start, p);
        }
    }
}

/// Only block-closing instructions at instruction starts carry gas.
pub open spec fn gas_only_at_block_starts(t: Seq<OpInfo>, code: Seq<u8>, entries: Seq<AnalysisData>) -> bool {
    forall|q: int|
        0 <= q < entries.len() && (#[trigger] entries[q]).gas_block != 0 ==> is_instruction_start(t, code, q)
            && op_at(t, code, q).gas_block_end
}

proof fn lemma_later_blocks_gas_placed(
    t: Seq<OpInfo>,
    code: Seq<u8>,
    i: int,
    start: int,
    gas: nat,
    entries: Seq<AnalysisData>,
)
    requires
        table_wf(t),
        0 <= start < code.len(),
        start < i,
        entries.len() == code.len(),
        is_instruction_start(t, code, start),
        op_at(t, code, start).gas_block_end,
        i < code.len() ==> is_instruction_start(t, code, i),
        gas_only_at_block_starts(t, code, entries),
    ensures
        gas_only_at_block_starts(t, code, later_blocks(t, code, i, start, gas, entries)),
    decreases (if i < code.len() { code.len() - i } else { 0 }),
{
    if i >= code.len() {
        if gas != 0 {
            let r = with_gas(entries, start, gas);
            assert forall|q: int| 0 <= q < r.len() && (#[trigger] r[q]).gas_block != 0 implies is_instruction_start(t, code, q)
                && op_at(t, code, q).gas_block_end by {
                if q != start {
                    assert(entries[q].gas_block != 0);
                }
            }
        }
    } else {
        let info = op_at(t, code, i);
        let gas2 = sat_add(gas, info.gas as nat);
        lemma_reaches_next(t, code, 0, i);
        if info.gas_block_end {
            assert(info.push_bytes == 0);
            let flagged = if info.is_jump { with_jump(entries, i) } else { entries };
            let r = with_gas(flagged, start, gas2);
            assert forall|q: int| 0 <= q < r.len() && (#[trigger] r[q]).gas_block != 0 implies is_instruction_start(t, code, q)
                && op_at(t, code, q).gas_block_end by {
                if q != start {
                    assert(flagged[q].gas_block != 0);
                    assert(entries[q].gas_block != 0);
                }
            }
            lemma_later_blocks_gas_placed(t, code, i + 1, i, 0, r);
        } else {
            lemma_later_blocks_gas_placed(t, code, next_pos(t, code, i), start, gas2, entries);
        }
    }
}

/// Under a well-formed table, a position that does not hold a block-closing
/// instruction at an instruction start records no gas.
pub proof fn lemma_gas_elsewhere_zero(t: Seq<OpInfo>, code: Seq<u8>, p: int)
    requires
        table_wf(t),
        0 <= p < code.len(),
        !(is_instruction_start(t, code, p) && op_at(t, code, p).gas_block_end),
    ensures
        analysis_entries(t, code)[p].gas_block == 0,
{
    let end = first_block(t, code, 0, 0).1;
    let none = Seq::new(code.len(), |i: int| AnalysisData::spec_none());
    lemma_first_block_end(t, code, 0, 0);
    lemma_entries_len(t, code);
    assert(gas_only_at_block_starts(t, code, none));
    if end >= 0 {
        let start = if op_at(t, code, end).is_jump { with_jump(none, end) } else { none };
        assert(gas_only_at_block_starts(t, code, start));
        lemma_reaches_next(t, code, 0, end);
        assert(op_at(t, code, end).push_bytes == 0);
        lemma_later_blocks_gas_placed(t, code, end + 1, end, 0, start);
        assert(analysis_entries(t, code)[p].gas_block == 0);
    }
}

/// A halting instruction that costs nothing and is no jump destination.
pub open spec fn free_halt(info: OpInfo) -> bool {
    info.gas_block_end && !info.is_jump && info.gas == 0
}

proof fn lemma_later_blocks_halting(t: Seq<OpInfo>, code: Seq<u8>, i: int, start: int)
    requires
        0 <= start < code.len(),
        start < i,
        forall|k: int| 0 <= k < code.len() ==> free_halt(#[trigger] op_at(t, code, k)),
    ensures
        later_blocks(t, code, i, start, 0, Seq::new(code.len(), |k: int| AnalysisData::spec_none()))
            == Seq::new(code.len(), |k: int| AnalysisData::spec_none()),
    decreases (if i < code.len() { code.len() - i } else { 0 }),
{
    let none = Seq::new(code.len(), |k: int| AnalysisData::spec_none());
    if i < code.len() {
        assert(free_halt(op_at(t, code, i)));
        assert(with_gas(none, start, 0) =~= none);
        lemma_later_blocks_halting(t, code, i + 1, i);
    }
}

/// Code made only of free halting instructions has no gas to charge anywhere
/// and no jump destination.
pub proof fn lemma_halting_code(t: Seq<OpInfo>, code: Seq<u8>)
    requires
        forall|k: int| 0 <= k < code.len() ==> free_halt(#[trigger] op_at(t, code, k)),
    ensures
        analysis_first_gas(t, code) == 0,
        analysis_entries(t, code) == Seq::new(code.len(), |k: int| AnalysisData::spec_none()),
{
    if code.len() > 0 {
        assert(free_halt(op_at(t, code, 0)));
        lemma_later_blocks_halting(t, code, 1, 0);
    }
}

/// Analyzes the first `len` bytes of `code` under `table`; the bytes beyond are
/// padding and take no part.
pub fn analyze(code: &[u8], len: usize, table: &OpcodeTable) -> (r: ValidJumpAddress)
    requires
        len <= code@.len(),
    ensures
        r.first_gas_block == analysis_first_gas(table@, code@.subrange(0, len as int)),
        r.analysis@ == analysis_entries(table@, code@.subrange(0, len as int)),
        r.analysis@.len() == len,
{
    proof {
        use_type_invariant(table);
    }
    let ghost t = table@;
    let ghost c = code@.subrange(0, len as int);
    let mut jumps: Vec<AnalysisData> = Vec::new();
    let mut k: usize = 0;
    while k < len
        invariant
            len == c.len(),
            len <= code@.len(),
            c == code@.subrange(0, len as int),
            k <= len,
            jumps@ == Seq::new(k as nat, |i: int| AnalysisData::spec_none()),
        decreases len - k,
    {
        jumps.push(AnalysisData::none());
        k = k + 1;
        assert(jumps@ =~= Seq::new(k as nat, |i: int| AnalysisData::spec_none()));
    }
    let ghost none = jumps@;
    let ghost first = first_block(t, c, 0, 0);

    let mut index: usize = 0;
    let mut first_gas: u64 = 0;
    let mut ended = false;
    while index < len && !ended
        invariant
            len == c.len(),
            len <= code@.len(),
            c == code@.subrange(0, len as int),
            table_wf(t),
            t == table@,
            jumps@.len() == len,
            !ended ==> jumps@ == none && index <= len && first_block(t, c, index as int, first_gas as nat) == first,
            ended ==> first == (first_gas as nat, index - 1) && 0 < index <= len
                && jumps@ == (if op_at(t, c, index - 1).is_jump { with_jump(none, index - 1) } else { none }),
        decreases len - index,
    {
        let ghost i0 = index as int;
        let ghost g0 = first_gas as nat;
        let info = table.get(code[index]);
        first_gas = first_gas.saturating_add(info.gas as u64);
        if info.gas_block_end {
            if info.is_jump {
                jumps.set(index, AnalysisData { is_jump: true, gas_block: jumps[index].gas_block });
            }
            index = index + 1;
            ended = true;
        } else {
            let step: usize = 1 + info.push_bytes as usize;
            if step >= len - index {
                index = len;
            } else {
                index = index + step;
            }
            proof {
                let n = i0 + 1 + (info.push_bytes as int);
                assert(first_block(t, c, i0, g0) == first_block(t, c, n, first_gas as nat));
                if index == len {
                    assert(first_block(t, c, n, first_gas as nat) == (first_gas as nat, -1int));
                }
            }
        }
    }
    if !ended {
        return ValidJumpAddress { first_gas_block: first_gas, analysis: jumps };
    }
    let mut block_start: usize = index - 1;
    let mut gas_in_block: u64 = 0;
    let ghost target = analysis_entries(t, c);
    while index < len
        invariant
            len == c.len(),
            len <= code@.len(),
            c == code@.subrange(0, len as int),
            t == table@,
            table_wf(t),
            jumps@.len() == len,
            block_start < index,
            block_start < len,
            index <= len,
            later_blocks(t, c, index as int, block_start as int, gas_in_block as nat, jumps@) == target,
        decreases len - index,
    {
        let ghost i0 = index as int;
        let ghost g0 = gas_in_block as nat;
        let ghost e0 = jumps@;
        let info = table.get(code[index]);
        gas_in_block = gas_in_block.saturating_add(info.gas as u64);
        if info.gas_block_end {
            if info.is_jump {
                jumps.set(index, AnalysisData { is_jump: true, gas_block: jumps[index].gas_block });
            }
            let ghost flagged = jumps@;
            jumps.set(block_start, AnalysisData { is_jump: jumps[block_start].is_jump, gas_block: gas_in_block });
            proof {
                assert(flagged == (if info.is_jump { with_jump(e0, i0) } else { e0 }));
                assert(jumps@ == with_gas(flagged, block_start as int, gas_in_block as nat));
            }
            block_start = index;
            gas_in_block = 0;
            index = index + 1;
        } else {
            let step: usize = 1 + info.push_bytes as usize;
            if step >= len - index {
                index = len;
            } else {
                index = index + step;
            }
            proof {
                let n = i0 + 1 + (info.push_bytes as int);
                let bs = block_start as int;
                let g = gas_in_block as nat;
                assert(later_blocks(t, c, i0, bs, g0, e0) == later_blocks(t, c, n, bs, g, e0));
                if index == len {
                    assert(later_blocks(t, c, n, bs, g, e0) == later_blocks(t, c, len as int, bs, g, e0));
                }
            }
        }
    }
    if gas_in_block != 0 {
        jumps.set(block_start, AnalysisData { is_jump: jumps[block_start].is_jump, gas_block: gas_in_block });
    }
    ValidJumpAddress { first_gas_block: first_gas, analysis: jumps }
}

} // verus!
