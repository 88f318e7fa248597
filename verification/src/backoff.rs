//! The wait before the next attempt. It grows with the number of the attempt
//! that failed: a hundred times `e` to the power of half that number plus one,
//! in whole milliseconds.

use vstd::prelude::*;

verus! {

/// From this attempt on the wait no longer fits in 64 bits and stays at the
/// largest value.
pub const SATURATED_FROM: u8 = 78;

/// The wait in milliseconds after attempt `attempt` failed: the whole part of
/// `100 * e^(attempt / 2 + 1)`, or the largest `u64` where that is larger.
pub open spec fn backoff_ms(attempt: u8) -> u64 {
    match attempt {
        0 => 271,
        1 => 448,
        2 => 738,
        3 => 1218,
        4 => 2008,
        5 => 3311,
        6 => 5459,
        7 => 9001,
        8 => 14841,
        9 => 24469,
        10 => 40342,
        11 => 66514,
        12 => 109663,
        13 => 180804,
        14 => 298095,
        15 => 491476,
        16 => 810308,
        17 => 1335972,
        18 => 2202646,
        19 => 3631550,
        20 => 5987414,
        21 => 9871577,
        22 => 16275479,
        23 => 26833728,
        24 => 44241339,
        25 => 72941636,
        26 => 120260428,
        27 => 198275926,
        28 => 326901737,
        29 => 538969847,
        30 => 888611052,
        31 => 1465071942,
        32 => 2415495275,
        33 => 3982478439,
        34 => 6565996913,
        35 => 10825498775,
        36 => 17848230096,
        37 => 29426756604,
        38 => 48516519540,
        39 => 79990217747,
        40 => 131881573448,
        41 => 217435955357,
        42 => 358491284613,
        43 => 591052206302,
        44 => 974480344624,
        45 => 1606646472062,
        46 => 2648912212984,
        47 => 4367317909764,
        48 => 7200489933738,
        49 => 11871600913216,
        50 => 19572960942883,
        51 => 32270357037115,
        52 => 53204824060179,
        53 => 87719925131876,
        54 => 144625706429147,
        55 => 238447478479767,
        56 => 393133429714404,
        57 => 648167447793432,
        58 => 1068647458152446,
        59 => 1761901795135563,
        60 => 2904884966524742,
        61 => 4789345633246372,
        62 => 7896296018268069,
        63 => 13018791205063293,
        64 => 21464357978591606,
        65 => 35388743561225987,
        66 => 58346174252745488,
        67 => 96196578554477641,
        68 => 158601345231343072,
        69 => 261489411444569660,
        70 => 431123154711519522,
        71 => 710801915464224406,
        72 => 1171914237280261130,
        73 => 1932159930440283620,
        74 => 3185593175711375622,
        75 => 5252155228592515815,
        76 => 8659340042399374695,
        77 => 14276838118129198591,
        _ => 0xffff_ffff_ffff_ffff,
    }
}

/// The wait in milliseconds before the attempt that follows attempt
/// `attempt`.
pub fn delay_for_attempt(attempt: u8) -> (delay: u64)
    ensures
        delay == backoff_ms(attempt),
{
    match attempt {
        0 => 271,
        1 => 448,
        2 => 738,
        3 => 1218,
        4 => 2008,
        5 => 3311,
        6 => 5459,
        7 => 9001,
        8 => 14841,
        9 => 24469,
        10 => 40342,
        11 => 66514,
        12 => 109663,
        13 => 180804,
        14 => 298095,
        15 => 491476,
        16 => 810308,
        17 => 1335972,
        18 => 2202646,
        19 => 3631550,
        20 => 5987414,
        21 => 9871577,
        22 => 16275479,
        23 => 26833728,
        24 => 44241339,
        25 => 72941636,
        26 => 120260428,
        27 => 198275926,
        28 => 326901737,
        29 => 538969847,
        30 => 888611052,
        31 => 1465071942,
        32 => 2415495275,
        33 => 3982478439,
        34 => 6565996913,
        35 => 10825498775,
        36 => 17848230096,
        37 => 29426756604,
        38 => 48516519540,
        39 => 79990217747,
        40 => 131881573448,
        41 => 217435955357,
        42 => 358491284613,
        43 => 591052206302,
        44 => 974480344624,
        45 => 1606646472062,
        46 => 2648912212984,
        47 => 4367317909764,
        48 => 7200489933738,
        49 => 11871600913216,
        50 => 19572960942883,
        51 => 32270357037115,
        52 => 53204824060179,
        53 => 87719925131876,
        54 => 144625706429147,
        55 => 238447478479767,
        56 => 393133429714404,
        57 => 648167447793432,
        58 => 1068647458152446,
        59 => 1761901795135563,
        60 => 2904884966524742,
        61 => 4789345633246372,
        62 => 7896296018268069,
        63 => 13018791205063293,
        64 => 21464357978591606,
        65 => 35388743561225987,
        66 => 58346174252745488,
        67 => 96196578554477641,
        68 => 158601345231343072,
        69 => 261489411444569660,
        70 => 431123154711519522,
        71 => 710801915464224406,
        72 => 1171914237280261130,
        73 => 1932159930440283620,
        74 => 3185593175711375622,
        75 => 5252155228592515815,
        76 => 8659340042399374695,
        77 => 14276838118129198591,
        _ => 0xffff_ffff_ffff_ffff,
    }
}

/// Until it saturates, each wait is longer than the one before.
pub proof fn lemma_backoff_step(attempt: u8)
    requires
        attempt < SATURATED_FROM,
    ensures
        backoff_ms(attempt) < backoff_ms((attempt + 1) as u8),
{
}

/// A later attempt never waits less than an earlier one.
pub proof fn lemma_backoff_monotonic(earlier: u8, later: u8)
    requires
        earlier <= later,
    ensures
        backoff_ms(earlier) <= backoff_ms(later),
        later < SATURATED_FROM && earlier < later ==> backoff_ms(earlier) < backoff_ms(later),
    decreases later - earlier,
{
    if earlier < later {
        let before = (later - 1) as u8;
        lemma_backoff_monotonic(earlier, before);
        if before < SATURATED_FROM {
            lemma_backoff_step(before);
        }
    }
}

/// The wait more than doubles every two attempts, so it outgrows every linear
/// schedule.
pub proof fn lemma_backoff_doubles(attempt: u8)
    requires
        attempt + 2 < SATURATED_FROM,
    ensures
        backoff_ms((attempt + 2) as u8) > 2 * backoff_ms(attempt),
{
}

} // verus!
