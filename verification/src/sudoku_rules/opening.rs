//! The digits that grids completed from given seeds open with, drawn step by
//! step.

use vstd::prelude::*;

use crate::sudoku_rules::generate::{drawn, law_seed_matters, Difficulty};
use crate::sudoku_rules::rng::{advance, exchanged, mix, scale, shuffled};
use crate::sudoku_rules::solve::opening_digit;

verus! {

/// One step of a shuffle: the item at the end of the first `n` changes places
/// with the one at `other`, which the bits drawn at `next` stand for.
proof fn lemma_shuffle_step(
    items: Seq<int>,
    became: Seq<int>,
    n: int,
    state: u64,
    next: u64,
    bits: u64,
    other: int,
)
    requires
        n > 1,
        advance(state) == next,
        mix(next) == bits,
        scale(bits, n) == other,
        exchanged(items, n - 1, other) =~= became,
    ensures
        shuffled(items, n, state) == shuffled(became, n - 1, next),
{
}

/// The grid that is completed from a stream at 12_345 opens with 4.
proof fn lemma_one_opening()
    ensures
        opening_digit(12_345) == 4,
{
    assert({
        &&& 0x9E37_79B9_7F4A_AC4Eu64 ^ (0x9E37_79B9_7F4A_AC4Eu64 >> 30) == 0x9E37_79BB_0797_4AABu64
        &&& 0x464A_CCAB_066B_EC93u64 ^ (0x464A_CCAB_066B_EC93u64 >> 27) == 0x464A_CCA3_CF32_79F3u64
        &&& 0x2211_8258_EDF2_1511u64 ^ (0x2211_8258_EDF2_1511u64 >> 31) == 0x2211_8258_A9D1_11A0u64
        &&& 0x3C6E_F372_FE95_2863u64 ^ (0x3C6E_F372_FE95_2863u64 >> 30) == 0x3C6E_F372_0F2E_E5A8u64
        &&& 0xF99A_FC6C_D5F3_3E68u64 ^ (0xF99A_FC6C_D5F3_3E68u64 >> 27) == 0xF99A_FC73_E6AC_B3F2u64
        &&& 0x346E_DCE5_9FCE_4126u64 ^ (0x346E_DCE5_9FCE_4126u64 >> 31) == 0x346E_DCE5_F713_F8EDu64
        &&& 0xDAA6_6D2C_7DDF_A478u64 ^ (0xDAA6_6D2C_7DDF_A478u64 >> 30) == 0xDAA6_6D2F_1746_10C9u64
        &&& 0x5A01_4FAB_6DA9_EE41u64 ^ (0x5A01_4FAB_6DA9_EE41u64 >> 27) == 0x5A01_4FA0_2D80_1B2Cu64
        &&& 0x1E9A_57BC_BDD2_DD64u64 ^ (0x1E9A_57BC_BDD2_DD64u64 >> 31) == 0x1E9A_57BC_80E6_721Du64
        &&& 0x78DD_E6E5_FD2A_208Du64 ^ (0x78DD_E6E5_FD2A_208Du64 >> 30) == 0x78DD_E6E4_1E5D_BB1Au64
        &&& 0x1220_1607_4542_77CAu64 ^ (0x1220_1607_4542_77CAu64 >> 27) == 0x1220_1605_0140_B722u64
        &&& 0x2D16_0E7E_0613_5E36u64 ^ (0x2D16_0E7E_0613_5E36u64 >> 31) == 0x2D16_0E7E_5C3F_42CAu64
        &&& 0x1715_609F_7C74_9CA2u64 ^ (0x1715_609F_7C74_9CA2u64 >> 30) == 0x1715_609F_2021_1EDFu64
        &&& 0x1E6F_658E_BB28_CA27u64 ^ (0x1E6F_658E_BB28_CA27u64 >> 27) == 0x1E6F_658D_76C4_7BF0u64
        &&& 0x81C2_E6DD_9B88_B550u64 ^ (0x81C2_E6DD_9B88_B550u64 >> 31) == 0x81C2_E6DC_980D_78EBu64
        &&& 0xB54C_DA58_FBBF_18B7u64 ^ (0xB54C_DA58_FBBF_18B7u64 >> 30) == 0xB54C_DA5A_2E8C_71D4u64
        &&& 0x2B83_8B9B_D620_E634u64 ^ (0x2B83_8B9B_D620_E634u64 >> 27) == 0x2B83_8B9E_A651_954Eu64
        &&& 0x5647_E55A_75BC_3C9Au64 ^ (0x5647_E55A_75BC_3C9Au64 >> 31) == 0x5647_E55A_D933_F62Eu64
        &&& 0x5384_5412_7B09_94CCu64 ^ (0x5384_5412_7B09_94CCu64 >> 30) == 0x5384_5413_3518_C485u64
        &&& 0xF784_7F8F_1924_FD1Du64 ^ (0xF784_7F8F_1924_FD1Du64 >> 27) == 0xF784_7F91_E9AB_0CFEu64
        &&& 0x1F66_22B4_327F_CB2Au64 ^ (0x1F66_22B4_327F_CB2Au64 >> 31) == 0x1F66_22B4_0CB3_8E42u64
        &&& 0xF1BB_CDCB_FA54_10E1u64 ^ (0xF1BB_CDCB_FA54_10E1u64 >> 30) == 0xF1BB_CDC8_3CBB_27CEu64
        &&& 0x0150_77C7_4953_09DEu64 ^ (0x0150_77C7_4953_09DEu64 >> 27) == 0x0150_77C7_635D_F137u64
        &&& 0x6E74_11B0_B4C8_147Du64 ^ (0x6E74_11B0_B4C8_147Du64 >> 31) == 0x6E74_11B0_6820_371Cu64
    }) by (bit_vector);
    assert(0x9E37_79BB_0797_4AABu64.wrapping_mul(0xBF58_476D_1CE4_E5B9) == 0x464A_CCAB_066B_EC93u64);
    assert(0x464A_CCA3_CF32_79F3u64.wrapping_mul(0x94D0_49BB_1331_11EB) == 0x2211_8258_EDF2_1511u64);
    lemma_shuffle_step(
        seq![1, 2, 3, 4, 5, 6, 7, 8, 9],
        seq![1, 9, 3, 4, 5, 6, 7, 8, 2],
        9,
        0x0000_0000_0000_3039,
        0x9E37_79B9_7F4A_AC4E,
        0x2211_8258_A9D1_11A0,
        1,
    );
    assert(0x3C6E_F372_0F2E_E5A8u64.wrapping_mul(0xBF58_476D_1CE4_E5B9) == 0xF99A_FC6C_D5F3_3E68u64);
    assert(0xF99A_FC73_E6AC_B3F2u64.wrapping_mul(0x94D0_49BB_1331_11EB) == 0x346E_DCE5_9FCE_4126u64);
    lemma_shuffle_step(
        seq![1, 9, 3, 4, 5, 6, 7, 8, 2],
        seq![1, 8, 3, 4, 5, 6, 7, 9, 2],
        8,
        0x9E37_79B9_7F4A_AC4E,
        0x3C6E_F372_FE95_2863,
        0x346E_DCE5_F713_F8ED,
        1,
    );
    assert(0xDAA6_6D2F_1746_10C9u64.wrapping_mul(0xBF58_476D_1CE4_E5B9) == 0x5A01_4FAB_6DA9_EE41u64);
    assert(0x5A01_4FA0_2D80_1B2Cu64.wrapping_mul(0x94D0_49BB_1331_11EB) == 0x1E9A_57BC_BDD2_DD64u64);
    lemma_shuffle_step(
        seq![1, 8, 3, 4, 5, 6, 7, 9, 2],
        seq![7, 8, 3, 4, 5, 6, 1, 9, 2],
        7,
        0x3C6E_F372_FE95_2863,
        0xDAA6_6D2C_7DDF_A478,
        0x1E9A_57BC_80E6_721D,
        0,
    );
    assert(0x78DD_E6E4_1E5D_BB1Au64.wrapping_mul(0xBF58_476D_1CE4_E5B9) == 0x1220_1607_4542_77CAu64);
    assert(0x1220_1605_0140_B722u64.wrapping_mul(0x94D0_49BB_1331_11EB) == 0x2D16_0E7E_0613_5E36u64);
    lemma_shuffle_step(
        seq![7, 8, 3, 4, 5, 6, 1, 9, 2],
        seq![7, 6, 3, 4, 5, 8, 1, 9, 2],
        6,
        0xDAA6_6D2C_7DDF_A478,
        0x78DD_E6E5_FD2A_208D,
        0x2D16_0E7E_5C3F_42CA,
        1,
    );
    assert(0x1715_609F_2021_1EDFu64.wrapping_mul(0xBF58_476D_1CE4_E5B9) == 0x1E6F_658E_BB28_CA27u64);
    assert(0x1E6F_658D_76C4_7BF0u64.wrapping_mul(0x94D0_49BB_1331_11EB) == 0x81C2_E6DD_9B88_B550u64);
    lemma_shuffle_step(
        seq![7, 6, 3, 4, 5, 8, 1, 9, 2],
        seq![7, 6, 5, 4, 3, 8, 1, 9, 2],
        5,
        0x78DD_E6E5_FD2A_208D,
        0x1715_609F_7C74_9CA2,
        0x81C2_E6DC_980D_78EB,
        2,
    );
    assert(0xB54C_DA5A_2E8C_71D4u64.wrapping_mul(0xBF58_476D_1CE4_E5B9) == 0x2B83_8B9B_D620_E634u64);
    assert(0x2B83_8B9E_A651_954Eu64.wrapping_mul(0x94D0_49BB_1331_11EB) == 0x5647_E55A_75BC_3C9Au64);
    lemma_shuffle_step(
        seq![7, 6, 5, 4, 3, 8, 1, 9, 2],
        seq![7, 4, 5, 6, 3, 8, 1, 9, 2],
        4,
        0x1715_609F_7C74_9CA2,
        0xB54C_DA58_FBBF_18B7,
        0x5647_E55A_D933_F62E,
        1,
    );
    assert(0x5384_5413_3518_C485u64.wrapping_mul(0xBF58_476D_1CE4_E5B9) == 0xF784_7F8F_1924_FD1Du64);
    assert(0xF784_7F91_E9AB_0CFEu64.wrapping_mul(0x94D0_49BB_1331_11EB) == 0x1F66_22B4_327F_CB2Au64);
    lemma_shuffle_step(
        seq![7, 4, 5, 6, 3, 8, 1, 9, 2],
        seq![5, 4, 7, 6, 3, 8, 1, 9, 2],
        3,
        0xB54C_DA58_FBBF_18B7,
        0x5384_5412_7B09_94CC,
        0x1F66_22B4_0CB3_8E42,
        0,
    );
    assert(0xF1BB_CDC8_3CBB_27CEu64.wrapping_mul(0xBF58_476D_1CE4_E5B9) == 0x0150_77C7_4953_09DEu64);
    assert(0x0150_77C7_635D_F137u64.wrapping_mul(0x94D0_49BB_1331_11EB) == 0x6E74_11B0_B4C8_147Du64);
    lemma_shuffle_step(
        seq![5, 4, 7, 6, 3, 8, 1, 9, 2],
        seq![4, 5, 7, 6, 3, 8, 1, 9, 2],
        2,
        0x5384_5412_7B09_94CC,
        0xF1BB_CDCB_FA54_10E1,
        0x6E74_11B0_6820_371C,
        0,
    );
}

/// The grid that is completed from a stream at 12_346 opens with 6.
proof fn lemma_next_opening()
    ensures
        opening_digit(12_346) == 6,
{
    assert({
        &&& 0x9E37_79B9_7F4A_AC4Fu64 ^ (0x9E37_79B9_7F4A_AC4Fu64 >> 30) == 0x9E37_79BB_0797_4AAAu64
        &&& 0x86F2_853D_E987_06DAu64 ^ (0x86F2_853D_E987_06DAu64 >> 27) == 0x86F2_852D_37D7_A167u64
        &&& 0xCB7E_37B5_1E60_008Du64 ^ (0xCB7E_37B5_1E60_008Du64 >> 31) == 0xCB7E_37B4_889C_6FE7u64
        &&& 0x3C6E_F372_FE95_2864u64 ^ (0x3C6E_F372_FE95_2864u64 >> 30) == 0x3C6E_F372_0F2E_E5AFu64
        &&& 0x3504_F068_A035_8677u64 ^ (0x3504_F068_A035_8677u64 >> 27) == 0x3504_F06E_00AB_8B63u64
        &&& 0x1318_EB85_08AD_86E1u64 ^ (0x1318_EB85_08AD_86E1u64 >> 31) == 0x1318_EB85_2E9C_51EBu64
        &&& 0xDAA6_6D2C_7DDF_A479u64 ^ (0xDAA6_6D2C_7DDF_A479u64 >> 30) == 0xDAA6_6D2F_1746_10C8u64
        &&& 0x9AA9_083E_50C5_0888u64 ^ (0x9AA9_083E_50C5_0888u64 >> 27) == 0x9AA9_082D_05E4_0F42u64
        &&& 0xFE54_83B7_5EFF_6396u64 ^ (0xFE54_83B7_5EFF_6396u64 >> 31) == 0xFE54_83B6_A256_64F8u64
        &&& 0x78DD_E6E5_FD2A_208Eu64 ^ (0x78DD_E6E5_FD2A_208Eu64 >> 30) == 0x78DD_E6E4_1E5D_BB19u64
        &&& 0x52C7_CE9A_285D_9211u64 ^ (0x52C7_CE9A_285D_9211u64 >> 27) == 0x52C7_CE90_70A4_4154u64
        &&& 0x4700_A2B8_0C32_8C1Cu64 ^ (0x4700_A2B8_0C32_8C1Cu64 >> 31) == 0x4700_A2B8_8233_C96Cu64
        &&& 0x1715_609F_7C74_9CA3u64 ^ (0x1715_609F_7C74_9CA3u64 >> 30) == 0x1715_609F_2021_1EDEu64
        &&& 0x5F17_1E21_9E43_E46Eu64 ^ (0x5F17_1E21_9E43_E46Eu64 >> 27) == 0x5F17_1E2A_7CA0_205Du64
        &&& 0x825D_6943_21F0_E25Fu64 ^ (0x825D_6943_21F0_E25Fu64 >> 31) == 0x825D_6942_254A_30D9u64
        &&& 0xB54C_DA58_FBBF_18B8u64 ^ (0xB54C_DA58_FBBF_18B8u64 >> 30) == 0xB54C_DA5A_2E8C_71DBu64
        &&& 0x66ED_7F97_A063_2E43u64 ^ (0x66ED_7F97_A063_2E43u64 >> 27) == 0x66ED_7F9B_7DCC_DCB7u64
        &&& 0xA8DC_285B_E9BD_C2FDu64 ^ (0xA8DC_285B_E9BD_C2FDu64 >> 31) == 0xA8DC_285A_B805_924Au64
        &&& 0x5384_5412_7B09_94CDu64 ^ (0x5384_5412_7B09_94CDu64 >> 30) == 0x5384_5413_3518_C484u64
        &&& 0x382C_3821_FC40_1764u64 ^ (0x382C_3821_FC40_1764u64 >> 27) == 0x382C_3826_F9C7_135Bu64
        &&& 0xB331_CE60_F772_CF89u64 ^ (0xB331_CE60_F772_CF89u64 >> 31) == 0xB331_CE61_9111_5348u64
        &&& 0xF1BB_CDCB_FA54_10E2u64 ^ (0xF1BB_CDCB_FA54_10E2u64 >> 30) == 0xF1BB_CDC8_3CBB_27CDu64
        &&& 0x41F8_305A_2C6E_2425u64 ^ (0x41F8_305A_2C6E_2425u64 >> 27) == 0x41F8_3052_1368_2F60u64
        &&& 0x41CD_3C36_ED28_DD20u64 ^ (0x41CD_3C36_ED28_DD20u64 >> 31) == 0x41CD_3C36_6EB2_A54Du64
    }) by (bit_vector);
    assert(0x9E37_79BB_0797_4AAAu64.wrapping_mul(0xBF58_476D_1CE4_E5B9) == 0x86F2_853D_E987_06DAu64);
    assert(0x86F2_852D_37D7_A167u64.wrapping_mul(0x94D0_49BB_1331_11EB) == 0xCB7E_37B5_1E60_008Du64);
    lemma_shuffle_step(
        seq![1, 2, 3, 4, 5, 6, 7, 8, 9],
        seq![1, 2, 3, 4, 5, 6, 7, 9, 8],
        9,
        0x0000_0000_0000_303A,
        0x9E37_79B9_7F4A_AC4F,
        0xCB7E_37B4_889C_6FE7,
        7,
    );
    assert(0x3C6E_F372_0F2E_E5AFu64.wrapping_mul(0xBF58_476D_1CE4_E5B9) == 0x3504_F068_A035_8677u64);
    assert(0x3504_F06E_00AB_8B63u64.wrapping_mul(0x94D0_49BB_1331_11EB) == 0x1318_EB85_08AD_86E1u64);
    lemma_shuffle_step(
        seq![1, 2, 3, 4, 5, 6, 7, 9, 8],
        seq![9, 2, 3, 4, 5, 6, 7, 1, 8],
        8,
        0x9E37_79B9_7F4A_AC4F,
        0x3C6E_F372_FE95_2864,
        0x1318_EB85_2E9C_51EB,
        0,
    );
    assert(0xDAA6_6D2F_1746_10C8u64.wrapping_mul(0xBF58_476D_1CE4_E5B9) == 0x9AA9_083E_50C5_0888u64);
    assert(0x9AA9_082D_05E4_0F42u64.wrapping_mul(0x94D0_49BB_1331_11EB) == 0xFE54_83B7_5EFF_6396u64);
    lemma_shuffle_step(
        seq![9, 2, 3, 4, 5, 6, 7, 1, 8],
        seq![9, 2, 3, 4, 5, 6, 7, 1, 8],
        7,
        0x3C6E_F372_FE95_2864,
        0xDAA6_6D2C_7DDF_A479,
        0xFE54_83B6_A256_64F8,
        6,
    );
    assert(0x78DD_E6E4_1E5D_BB19u64.wrapping_mul(0xBF58_476D_1CE4_E5B9) == 0x52C7_CE9A_285D_9211u64);
    assert(0x52C7_CE90_70A4_4154u64.wrapping_mul(0x94D0_49BB_1331_11EB) == 0x4700_A2B8_0C32_8C1Cu64);
    lemma_shuffle_step(
        seq![9, 2, 3, 4, 5, 6, 7, 1, 8],
        seq![9, 6, 3, 4, 5, 2, 7, 1, 8],
        6,
        0xDAA6_6D2C_7DDF_A479,
        0x78DD_E6E5_FD2A_208E,
        0x4700_A2B8_8233_C96C,
        1,
    );
    assert(0x1715_609F_2021_1EDEu64.wrapping_mul(0xBF58_476D_1CE4_E5B9) == 0x5F17_1E21_9E43_E46Eu64);
    assert(0x5F17_1E2A_7CA0_205Du64.wrapping_mul(0x94D0_49BB_1331_11EB) == 0x825D_6943_21F0_E25Fu64);
    lemma_shuffle_step(
        seq![9, 6, 3, 4, 5, 2, 7, 1, 8],
        seq![9, 6, 5, 4, 3, 2, 7, 1, 8],
        5,
        0x78DD_E6E5_FD2A_208E,
        0x1715_609F_7C74_9CA3,
        0x825D_6942_254A_30D9,
        2,
    );
    assert(0xB54C_DA5A_2E8C_71DBu64.wrapping_mul(0xBF58_476D_1CE4_E5B9) == 0x66ED_7F97_A063_2E43u64);
    assert(0x66ED_7F9B_7DCC_DCB7u64.wrapping_mul(0x94D0_49BB_1331_11EB) == 0xA8DC_285B_E9BD_C2FDu64);
    lemma_shuffle_step(
        seq![9, 6, 5, 4, 3, 2, 7, 1, 8],
        seq![9, 6, 4, 5, 3, 2, 7, 1, 8],
        4,
        0x1715_609F_7C74_9CA3,
        0xB54C_DA58_FBBF_18B8,
        0xA8DC_285A_B805_924A,
        2,
    );
    assert(0x5384_5413_3518_C484u64.wrapping_mul(0xBF58_476D_1CE4_E5B9) == 0x382C_3821_FC40_1764u64);
    assert(0x382C_3826_F9C7_135Bu64.wrapping_mul(0x94D0_49BB_1331_11EB) == 0xB331_CE60_F772_CF89u64);
    lemma_shuffle_step(
        seq![9, 6, 4, 5, 3, 2, 7, 1, 8],
        seq![9, 6, 4, 5, 3, 2, 7, 1, 8],
        3,
        0xB54C_DA58_FBBF_18B8,
        0x5384_5412_7B09_94CD,
        0xB331_CE61_9111_5348,
        2,
    );
    assert(0xF1BB_CDC8_3CBB_27CDu64.wrapping_mul(0xBF58_476D_1CE4_E5B9) == 0x41F8_305A_2C6E_2425u64);
    assert(0x41F8_3052_1368_2F60u64.wrapping_mul(0x94D0_49BB_1331_11EB) == 0x41CD_3C36_ED28_DD20u64);
    lemma_shuffle_step(
        seq![9, 6, 4, 5, 3, 2, 7, 1, 8],
        seq![6, 9, 4, 5, 3, 2, 7, 1, 8],
        2,
        0x5384_5412_7B09_94CD,
        0xF1BB_CDCB_FA54_10E2,
        0x41CD_3C36_6EB2_A54D,
        0,
    );
}

/// Neighbouring seeds are no neighbouring puzzles: these two give different
/// clues and different answers at every level.
pub proof fn law_neighbouring_seeds_differ(level: Difficulty)
    ensures
        drawn(level, 12_345).givens != drawn(level, 12_346).givens,
        drawn(level, 12_345).solution != drawn(level, 12_346).solution,
{
    lemma_one_opening();
    lemma_next_opening();
    law_seed_matters(level, 12_345, level, 12_346);
}

} // verus!
