//! DX7 pitch envelope ROM tables.
//!
//! Level 50 means no pitch offset; the tabulated levels reach roughly ±4
//! octaves. Each level unit of the table is 12/32 = 0.375 semitones.

use vstd::prelude::*;

verus! {

/// DX7 ROM `pitchenv_rate[100]`. Indexes the patch rate parameter (0..99) and
/// produces a raw step that is multiplied by a per-sample unit to get the increment.
pub const PITCHENV_RATE: [u8; 100] = [
    1, 2, 3, 3, 4, 4, 5, 5, 6, 6, 7, 7, 8, 8, 9, 9, 10, 10, 11, 11,
    12, 12, 13, 13, 14, 14, 15, 16, 16, 17, 18, 18, 19, 20, 21, 22, 23, 24, 25, 26,
    27, 28, 30, 31, 33, 34, 36, 37, 38, 39, 41, 42, 44, 46, 47, 49, 51, 53, 54, 56,
    58, 60, 62, 64, 66, 68, 70, 72, 74, 76, 79, 82, 85, 88, 91, 94, 98, 102, 106, 110,
    115, 120, 125, 130, 135, 141, 147, 153, 159, 165, 171, 178, 185, 193, 202, 211, 232, 243, 254, 255,
];

/// DX7 ROM `pitchenv_tab[100]`. Indexes the patch level parameter (0..99) and
/// returns a signed byte; `(byte) << 19` is a log-freq Q24 amount (1 << 24 =
/// 1 octave = 12 semitones), so each unit ≈ 12/32 = 0.375 semitones.
pub const PITCHENV_TAB: [i8; 100] = [
    -128, -116, -104, -95, -85, -76, -68, -61, -56, -52, -49, -46, -43, -41, -39, -37, -35, -33, -32, -31,
    -30, -29, -28, -27, -26, -25, -24, -23, -22, -21, -20, -19, -18, -17, -16, -15, -14, -13, -12, -11,
    -10, -9, -8, -7, -6, -5, -4, -3, -2, -1, 0, 1, 2, 3, 4, 5, 6, 7, 8, 9,
    10, 11, 12, 13, 14, 15, 16, 17, 18, 19, 20, 21, 22, 23, 24, 25, 26, 27, 28, 29,
    30, 31, 32, 33, 34, 35, 38, 40, 43, 46, 49, 53, 58, 65, 73, 82, 92, 103, 115, 127,
];

/// The table index of a 0..99 parameter; larger values read as 99.
pub open spec fn table_index(p: u8) -> int {
    if p > 99 { 99 } else { p as int }
}

/// The pitch offset of a level parameter in table units (0.375 semitones each).
pub fn level_to_tab_units(level: u8) -> (u: i8)
    ensures
        u == PITCHENV_TAB@[table_index(level)],
{
    let idx: usize = if level > 99 { 99 } else { level as usize };
    PITCHENV_TAB[idx]
}

/// The raw per-sample step of a rate parameter.
pub fn rate_to_steps(rate: u8) -> (s: u8)
    ensures
        s == PITCHENV_RATE@[table_index(rate)],
{
    let idx: usize = if rate > 99 { 99 } else { rate as usize };
    PITCHENV_RATE[idx]
}

proof fn lemma_tab_adjacent()
    ensures
        forall|k: int| 0 <= k < 99 ==> PITCHENV_TAB@[k] < #[trigger] PITCHENV_TAB@[k + 1],
{
    assert(PITCHENV_TAB@[0] < PITCHENV_TAB@[1]);
    assert(PITCHENV_TAB@[1] < PITCHENV_TAB@[2]);
    assert(PITCHENV_TAB@[2] < PITCHENV_TAB@[3]);
    assert(PITCHENV_TAB@[3] < PITCHENV_TAB@[4]);
    assert(PITCHENV_TAB@[4] < PITCHENV_TAB@[5]);
    assert(PITCHENV_TAB@[5] < PITCHENV_TAB@[6]);
    assert(PITCHENV_TAB@[6] < PITCHENV_TAB@[7]);
    assert(PITCHENV_TAB@[7] < PITCHENV_TAB@[8]);
    assert(PITCHENV_TAB@[8] < PITCHENV_TAB@[9]);
    assert(PITCHENV_TAB@[9] < PITCHENV_TAB@[10]);
    assert(PITCHENV_TAB@[10] < PITCHENV_TAB@[11]);
    assert(PITCHENV_TAB@[11] < PITCHENV_TAB@[12]);
    assert(PITCHENV_TAB@[12] < PITCHENV_TAB@[13]);
    assert(PITCHENV_TAB@[13] < PITCHENV_TAB@[14]);
    assert(PITCHENV_TAB@[14] < PITCHENV_TAB@[15]);
    assert(PITCHENV_TAB@[15] < PITCHENV_TAB@[16]);
    assert(PITCHENV_TAB@[16] < PITCHENV_TAB@[17]);
    assert(PITCHENV_TAB@[17] < PITCHENV_TAB@[18]);
    assert(PITCHENV_TAB@[18] < PITCHENV_TAB@[19]);
    assert(PITCHENV_TAB@[19] < PITCHENV_TAB@[20]);
    assert(PITCHENV_TAB@[20] < PITCHENV_TAB@[21]);
    assert(PITCHENV_TAB@[21] < PITCHENV_TAB@[22]);
    assert(PITCHENV_TAB@[22] < PITCHENV_TAB@[23]);
    assert(PITCHENV_TAB@[23] < PITCHENV_TAB@[24]);
    assert(PITCHENV_TAB@[24] < PITCHENV_TAB@[25]);
    assert(PITCHENV_TAB@[25] < PITCHENV_TAB@[26]);
    assert(PITCHENV_TAB@[26] < PITCHENV_TAB@[27]);
    assert(PITCHENV_TAB@[27] < PITCHENV_TAB@[28]);
    assert(PITCHENV_TAB@[28] < PITCHENV_TAB@[29]);
    assert(PITCHENV_TAB@[29] < PITCHENV_TAB@[30]);
    assert(PITCHENV_TAB@[30] < PITCHENV_TAB@[31]);
    assert(PITCHENV_TAB@[31] < PITCHENV_TAB@[32]);
    assert(PITCHENV_TAB@[32] < PITCHENV_TAB@[33]);
    assert(PITCHENV_TAB@[33] < PITCHENV_TAB@[34]);
    assert(PITCHENV_TAB@[34] < PITCHENV_TAB@[35]);
    assert(PITCHENV_TAB@[35] < PITCHENV_TAB@[36]);
    assert(PITCHENV_TAB@[36] < PITCHENV_TAB@[37]);
    assert(PITCHENV_TAB@[37] < PITCHENV_TAB@[38]);
    assert(PITCHENV_TAB@[38] < PITCHENV_TAB@[39]);
    assert(PITCHENV_TAB@[39] < PITCHENV_TAB@[40]);
    assert(PITCHENV_TAB@[40] < PITCHENV_TAB@[41]);
    assert(PITCHENV_TAB@[41] < PITCHENV_TAB@[42]);
    assert(PITCHENV_TAB@[42] < PITCHENV_TAB@[43]);
    assert(PITCHENV_TAB@[43] < PITCHENV_TAB@[44]);
    assert(PITCHENV_TAB@[44] < PITCHENV_TAB@[45]);
    assert(PITCHENV_TAB@[45] < PITCHENV_TAB@[46]);
    assert(PITCHENV_TAB@[46] < PITCHENV_TAB@[47]);
    assert(PITCHENV_TAB@[47] < PITCHENV_TAB@[48]);
    assert(PITCHENV_TAB@[48] < PITCHENV_TAB@[49]);
    assert(PITCHENV_TAB@[49] < PITCHENV_TAB@[50]);
    assert(PITCHENV_TAB@[50] < PITCHENV_TAB@[51]);
    assert(PITCHENV_TAB@[51] < PITCHENV_TAB@[52]);
    assert(PITCHENV_TAB@[52] < PITCHENV_TAB@[53]);
    assert(PITCHENV_TAB@[53] < PITCHENV_TAB@[54]);
    assert(PITCHENV_TAB@[54] < PITCHENV_TAB@[55]);
    assert(PITCHENV_TAB@[55] < PITCHENV_TAB@[56]);
    assert(PITCHENV_TAB@[56] < PITCHENV_TAB@[57]);
    assert(PITCHENV_TAB@[57] < PITCHENV_TAB@[58]);
    assert(PITCHENV_TAB@[58] < PITCHENV_TAB@[59]);
    assert(PITCHENV_TAB@[59] < PITCHENV_TAB@[60]);
    assert(PITCHENV_TAB@[60] < PITCHENV_TAB@[61]);
    assert(PITCHENV_TAB@[61] < PITCHENV_TAB@[62]);
    assert(PITCHENV_TAB@[62] < PITCHENV_TAB@[63]);
    assert(PITCHENV_TAB@[63] < PITCHENV_TAB@[64]);
    assert(PITCHENV_TAB@[64] < PITCHENV_TAB@[65]);
    assert(PITCHENV_TAB@[65] < PITCHENV_TAB@[66]);
    assert(PITCHENV_TAB@[66] < PITCHENV_TAB@[67]);
    assert(PITCHENV_TAB@[67] < PITCHENV_TAB@[68]);
    assert(PITCHENV_TAB@[68] < PITCHENV_TAB@[69]);
    assert(PITCHENV_TAB@[69] < PITCHENV_TAB@[70]);
    assert(PITCHENV_TAB@[70] < PITCHENV_TAB@[71]);
    assert(PITCHENV_TAB@[71] < PITCHENV_TAB@[72]);
    assert(PITCHENV_TAB@[72] < PITCHENV_TAB@[73]);
    assert(PITCHENV_TAB@[73] < PITCHENV_TAB@[74]);
    assert(PITCHENV_TAB@[74] < PITCHENV_TAB@[75]);
    assert(PITCHENV_TAB@[75] < PITCHENV_TAB@[76]);
    assert(PITCHENV_TAB@[76] < PITCHENV_TAB@[77]);
    assert(PITCHENV_TAB@[77] < PITCHENV_TAB@[78]);
    assert(PITCHENV_TAB@[78] < PITCHENV_TAB@[79]);
    assert(PITCHENV_TAB@[79] < PITCHENV_TAB@[80]);
    assert(PITCHENV_TAB@[80] < PITCHENV_TAB@[81]);
    assert(PITCHENV_TAB@[81] < PITCHENV_TAB@[82]);
    assert(PITCHENV_TAB@[82] < PITCHENV_TAB@[83]);
    assert(PITCHENV_TAB@[83] < PITCHENV_TAB@[84]);
    assert(PITCHENV_TAB@[84] < PITCHENV_TAB@[85]);
    assert(PITCHENV_TAB@[85] < PITCHENV_TAB@[86]);
    assert(PITCHENV_TAB@[86] < PITCHENV_TAB@[87]);
    assert(PITCHENV_TAB@[87] < PITCHENV_TAB@[88]);
    assert(PITCHENV_TAB@[88] < PITCHENV_TAB@[89]);
    assert(PITCHENV_TAB@[89] < PITCHENV_TAB@[90]);
    assert(PITCHENV_TAB@[90] < PITCHENV_TAB@[91]);
    assert(PITCHENV_TAB@[91] < PITCHENV_TAB@[92]);
    assert(PITCHENV_TAB@[92] < PITCHENV_TAB@[93]);
    assert(PITCHENV_TAB@[93] < PITCHENV_TAB@[94]);
    assert(PITCHENV_TAB@[94] < PITCHENV_TAB@[95]);
    assert(PITCHENV_TAB@[95] < PITCHENV_TAB@[96]);
    assert(PITCHENV_TAB@[96] < PITCHENV_TAB@[97]);
    assert(PITCHENV_TAB@[97] < PITCHENV_TAB@[98]);
    assert(PITCHENV_TAB@[98] < PITCHENV_TAB@[99]);
}

proof fn lemma_rate_adjacent()
    ensures
        forall|k: int| 0 <= k < 99 ==> PITCHENV_RATE@[k] <= #[trigger] PITCHENV_RATE@[k + 1],
{
    assert(PITCHENV_RATE@[0] <= PITCHENV_RATE@[1]);
    assert(PITCHENV_RATE@[1] <= PITCHENV_RATE@[2]);
    assert(PITCHENV_RATE@[2] <= PITCHENV_RATE@[3]);
    assert(PITCHENV_RATE@[3] <= PITCHENV_RATE@[4]);
    assert(PITCHENV_RATE@[4] <= PITCHENV_RATE@[5]);
    assert(PITCHENV_RATE@[5] <= PITCHENV_RATE@[6]);
    assert(PITCHENV_RATE@[6] <= PITCHENV_RATE@[7]);
    assert(PITCHENV_RATE@[7] <= PITCHENV_RATE@[8]);
    assert(PITCHENV_RATE@[8] <= PITCHENV_RATE@[9]);
    assert(PITCHENV_RATE@[9] <= PITCHENV_RATE@[10]);
    assert(PITCHENV_RATE@[10] <= PITCHENV_RATE@[11]);
    assert(PITCHENV_RATE@[11] <= PITCHENV_RATE@[12]);
    assert(PITCHENV_RATE@[12] <= PITCHENV_RATE@[13]);
    assert(PITCHENV_RATE@[13] <= PITCHENV_RATE@[14]);
    assert(PITCHENV_RATE@[14] <= PITCHENV_RATE@[15]);
    assert(PITCHENV_RATE@[15] <= PITCHENV_RATE@[16]);
    assert(PITCHENV_RATE@[16] <= PITCHENV_RATE@[17]);
    assert(PITCHENV_RATE@[17] <= PITCHENV_RATE@[18]);
    assert(PITCHENV_RATE@[18] <= PITCHENV_RATE@[19]);
    assert(PITCHENV_RATE@[19] <= PITCHENV_RATE@[20]);
    assert(PITCHENV_RATE@[20] <= PITCHENV_RATE@[21]);
    assert(PITCHENV_RATE@[21] <= PITCHENV_RATE@[22]);
    assert(PITCHENV_RATE@[22] <= PITCHENV_RATE@[23]);
    assert(PITCHENV_RATE@[23] <= PITCHENV_RATE@[24]);
    assert(PITCHENV_RATE@[24] <= PITCHENV_RATE@[25]);
    assert(PITCHENV_RATE@[25] <= PITCHENV_RATE@[26]);
    assert(PITCHENV_RATE@[26] <= PITCHENV_RATE@[27]);
    assert(PITCHENV_RATE@[27] <= PITCHENV_RATE@[28]);
    assert(PITCHENV_RATE@[28] <= PITCHENV_RATE@[29]);
    assert(PITCHENV_RATE@[29] <= PITCHENV_RATE@[30]);
    assert(PITCHENV_RATE@[30] <= PITCHENV_RATE@[31]);
    assert(PITCHENV_RATE@[31] <= PITCHENV_RATE@[32]);
    assert(PITCHENV_RATE@[32] <= PITCHENV_RATE@[33]);
    assert(PITCHENV_RATE@[33] <= PITCHENV_RATE@[34]);
    assert(PITCHENV_RATE@[34] <= PITCHENV_RATE@[35]);
    assert(PITCHENV_RATE@[35] <= PITCHENV_RATE@[36]);
    assert(PITCHENV_RATE@[36] <= PITCHENV_RATE@[37]);
    assert(PITCHENV_RATE@[37] <= PITCHENV_RATE@[38]);
    assert(PITCHENV_RATE@[38] <= PITCHENV_RATE@[39]);
    assert(PITCHENV_RATE@[39] <= PITCHENV_RATE@[40]);
    assert(PITCHENV_RATE@[40] <= PITCHENV_RATE@[41]);
    assert(PITCHENV_RATE@[41] <= PITCHENV_RATE@[42]);
    assert(PITCHENV_RATE@[42] <= PITCHENV_RATE@[43]);
    assert(PITCHENV_RATE@[43] <= PITCHENV_RATE@[44]);
    assert(PITCHENV_RATE@[44] <= PITCHENV_RATE@[45]);
    assert(PITCHENV_RATE@[45] <= PITCHENV_RATE@[46]);
    assert(PITCHENV_RATE@[46] <= PITCHENV_RATE@[47]);
    assert(PITCHENV_RATE@[47] <= PITCHENV_RATE@[48]);
    assert(PITCHENV_RATE@[48] <= PITCHENV_RATE@[49]);
    assert(PITCHENV_RATE@[49] <= PITCHENV_RATE@[50]);
    assert(PITCHENV_RATE@[50] <= PITCHENV_RATE@[51]);
    assert(PITCHENV_RATE@[51] <= PITCHENV_RATE@[52]);
    assert(PITCHENV_RATE@[52] <= PITCHENV_RATE@[53]);
    assert(PITCHENV_RATE@[53] <= PITCHENV_RATE@[54]);
    assert(PITCHENV_RATE@[54] <= PITCHENV_RATE@[55]);
    assert(PITCHENV_RATE@[55] <= PITCHENV_RATE@[56]);
    assert(PITCHENV_RATE@[56] <= PITCHENV_RATE@[57]);
    assert(PITCHENV_RATE@[57] <= PITCHENV_RATE@[58]);
    assert(PITCHENV_RATE@[58] <= PITCHENV_RATE@[59]);
    assert(PITCHENV_RATE@[59] <= PITCHENV_RATE@[60]);
    assert(PITCHENV_RATE@[60] <= PITCHENV_RATE@[61]);
    assert(PITCHENV_RATE@[61] <= PITCHENV_RATE@[62]);
    assert(PITCHENV_RATE@[62] <= PITCHENV_RATE@[63]);
    assert(PITCHENV_RATE@[63] <= PITCHENV_RATE@[64]);
    assert(PITCHENV_RATE@[64] <= PITCHENV_RATE@[65]);
    assert(PITCHENV_RATE@[65] <= PITCHENV_RATE@[66]);
    assert(PITCHENV_RATE@[66] <= PITCHENV_RATE@[67]);
    assert(PITCHENV_RATE@[67] <= PITCHENV_RATE@[68]);
    assert(PITCHENV_RATE@[68] <= PITCHENV_RATE@[69]);
    assert(PITCHENV_RATE@[69] <= PITCHENV_RATE@[70]);
    assert(PITCHENV_RATE@[70] <= PITCHENV_RATE@[71]);
    assert(PITCHENV_RATE@[71] <= PITCHENV_RATE@[72]);
    assert(PITCHENV_RATE@[72] <= PITCHENV_RATE@[73]);
    assert(PITCHENV_RATE@[73] <= PITCHENV_RATE@[74]);
    assert(PITCHENV_RATE@[74] <= PITCHENV_RATE@[75]);
    assert(PITCHENV_RATE@[75] <= PITCHENV_RATE@[76]);
    assert(PITCHENV_RATE@[76] <= PITCHENV_RATE@[77]);
    assert(PITCHENV_RATE@[77] <= PITCHENV_RATE@[78]);
    assert(PITCHENV_RATE@[78] <= PITCHENV_RATE@[79]);
    assert(PITCHENV_RATE@[79] <= PITCHENV_RATE@[80]);
    assert(PITCHENV_RATE@[80] <= PITCHENV_RATE@[81]);
    assert(PITCHENV_RATE@[81] <= PITCHENV_RATE@[82]);
    assert(PITCHENV_RATE@[82] <= PITCHENV_RATE@[83]);
    assert(PITCHENV_RATE@[83] <= PITCHENV_RATE@[84]);
    assert(PITCHENV_RATE@[84] <= PITCHENV_RATE@[85]);
    assert(PITCHENV_RATE@[85] <= PITCHENV_RATE@[86]);
    assert(PITCHENV_RATE@[86] <= PITCHENV_RATE@[87]);
    assert(PITCHENV_RATE@[87] <= PITCHENV_RATE@[88]);
    assert(PITCHENV_RATE@[88] <= PITCHENV_RATE@[89]);
    assert(PITCHENV_RATE@[89] <= PITCHENV_RATE@[90]);
    assert(PITCHENV_RATE@[90] <= PITCHENV_RATE@[91]);
    assert(PITCHENV_RATE@[91] <= PITCHENV_RATE@[92]);
    assert(PITCHENV_RATE@[92] <= PITCHENV_RATE@[93]);
    assert(PITCHENV_RATE@[93] <= PITCHENV_RATE@[94]);
    assert(PITCHENV_RATE@[94] <= PITCHENV_RATE@[95]);
    assert(PITCHENV_RATE@[95] <= PITCHENV_RATE@[96]);
    assert(PITCHENV_RATE@[96] <= PITCHENV_RATE@[97]);
    assert(PITCHENV_RATE@[97] <= PITCHENV_RATE@[98]);
    assert(PITCHENV_RATE@[98] <= PITCHENV_RATE@[99]);
}

/// A higher pitch envelope level always means a higher pitch: the level table
/// increases strictly, with level 50 at no offset.
pub proof fn lemma_level_table_increasing(i: int, j: int)
    requires
        0 <= i < j < 100,
    ensures
        PITCHENV_TAB@[i] < PITCHENV_TAB@[j],
        PITCHENV_TAB@[50] == 0,
    decreases j - i,
{
    lemma_tab_adjacent();
    if j > i + 1 {
        lemma_level_table_increasing(i, j - 1);
        assert(PITCHENV_TAB@[j - 1] < PITCHENV_TAB@[j]);
    }
}

/// A higher pitch envelope rate never means a slower envelope: the rate table
/// does not decrease, and even rate 0 moves.
pub proof fn lemma_rate_table_nondecreasing(i: int, j: int)
    requires
        0 <= i <= j < 100,
    ensures
        PITCHENV_RATE@[i] <= PITCHENV_RATE@[j],
        PITCHENV_RATE@[0] >= 1,
    decreases j - i,
{
    lemma_rate_adjacent();
    if j > i {
        lemma_rate_table_nondecreasing(i, j - 1);
        assert(PITCHENV_RATE@[j - 1] <= PITCHENV_RATE@[j]);
    }
}

} // verus!
