//! The output data rates of the device and the rounding policy applied to a
//! requested rate. Rates are integers in hundredths of a hertz, so that the
//! whole table (800 Hz down to 1.56 Hz) is exact.

use vstd::prelude::*;

verus! {

/// Number of output data rates the device supports.
pub const NUM_OUTPUT_RATES: usize = 8;

/// Rate a fresh driver assumes: 12.5 Hz.
pub const DEFAULT_OUTPUT_RATE: u32 = 1250;

/// The supported rates in hundredths of a hertz, fastest first. The position
/// of a rate in this table is its encoding in control register 1.
pub open spec fn output_rate_table() -> Seq<u32> {
    seq![80000u32, 40000u32, 20000u32, 10000u32, 5000u32, 1250u32, 625u32, 156u32]
}

/// The rate granted for a request: nothing (0) for a request that is not
/// positive, otherwise the fastest supported rate that does not exceed the
/// request, and the slowest supported rate when every rate exceeds it.
pub open spec fn closest_output_rate(requested: int) -> int {
    if requested <= 0 {
        0
    } else if requested >= 80000 {
        80000
    } else if requested >= 40000 {
        40000
    } else if requested >= 20000 {
        20000
    } else if requested >= 10000 {
        10000
    } else if requested >= 5000 {
        5000
    } else if requested >= 1250 {
        1250
    } else if requested >= 625 {
        625
    } else {
        156
    }
}

/// Whether `rate` is one of the supported rates.
pub open spec fn is_output_rate(rate: int) -> bool {
    exists|i: int| 0 <= i < output_rate_table().len() && #[trigger] output_rate_table()[i] == rate
}

/// Position of `rate` in the table, or `None` for a value that is no
/// supported rate.
pub open spec fn output_rate_index(rate: int) -> Option<u8> {
    if rate == 80000 {
        Some(0u8)
    } else if rate == 40000 {
        Some(1u8)
    } else if rate == 20000 {
        Some(2u8)
    } else if rate == 10000 {
        Some(3u8)
    } else if rate == 5000 {
        Some(4u8)
    } else if rate == 1250 {
        Some(5u8)
    } else if rate == 625 {
        Some(6u8)
    } else if rate == 156 {
        Some(7u8)
    } else {
        None
    }
}

/// The rounding policy, case by case: a request that is not positive is
/// granted nothing; a request at or above the fastest rate is granted the
/// fastest rate; a positive request below the slowest rate is granted the
/// slowest rate; any other request is granted the fastest supported rate
/// that does not exceed it.
pub proof fn lemma_closest_output_rate(requested: int)
    ensures
        requested <= 0 ==> closest_output_rate(requested) == 0,
        requested >= 80000 ==> closest_output_rate(requested) == 80000,
        0 < requested < 156 ==> closest_output_rate(requested) == 156,
        requested > 0 ==> is_output_rate(closest_output_rate(requested)),
        requested >= 156 ==> closest_output_rate(requested) <= requested,
        forall|i: int|
            0 <= i < output_rate_table().len() && requested >= 156 && (
            #[trigger] output_rate_table()[i]) <= requested ==> output_rate_table()[i]
                <= closest_output_rate(requested),
{
    let table = output_rate_table();
    if requested > 0 {
        let rate = closest_output_rate(requested);
        let at: int = if rate == 80000 {
            0
        } else if rate == 40000 {
            1
        } else if rate == 20000 {
            2
        } else if rate == 10000 {
            3
        } else if rate == 5000 {
            4
        } else if rate == 1250 {
            5
        } else if rate == 625 {
            6
        } else {
            7
        };
        assert(table[at] == rate);
    }
}

/// The index of a rate is its position in the table, and only the rates of
/// the table have one.
pub proof fn lemma_output_rate_index(rate: int)
    ensures
        output_rate_index(rate).is_some() <==> is_output_rate(rate),
        output_rate_index(rate) matches Some(index) ==> index < 8 && output_rate_table()[index as int]
            == rate,
{
    let table = output_rate_table();
    if let Some(index) = output_rate_index(rate) {
        assert(table[index as int] == rate);
    }
    if is_output_rate(rate) {
        let i = choose|i: int| 0 <= i < table.len() && #[trigger] table[i] == rate;
        assert(table[i] == rate);
    }
}

/// Every positive request is granted a rate that has an index.
pub proof fn lemma_granted_rate_has_index(requested: int)
    requires
        requested > 0,
    ensures
        output_rate_index(closest_output_rate(requested)).is_some(),
{
}

/// The table as a value.
pub fn output_rates() -> (rates: [u32; 8])
    ensures
        rates@ == output_rate_table(),
{
    let rates: [u32; 8] = [80000, 40000, 20000, 10000, 5000, 1250, 625, 156];
    assert(rates@ =~= output_rate_table());
    rates
}

/// Rounds a requested rate down to a supported one.
pub fn closest_rate(requested: i64) -> (rate: u32)
    ensures
        rate == closest_output_rate(requested as int),
{
    if requested <= 0 {
        return 0;
    }
    let available: [u32; 8] = output_rates();
    let mut i: usize = 0;
    while i < NUM_OUTPUT_RATES
        invariant
            0 <= i <= NUM_OUTPUT_RATES,
            requested > 0,
            available@ == output_rate_table(),
            forall|j: int| 0 <= j < i ==> requested < #[trigger] available@[j],
        decreases NUM_OUTPUT_RATES - i,
    {
        if available[i] as i64 <= requested {
            return available[i];
        }
        i = i + 1;
    }
    assert(requested < available@[6]);
    available[NUM_OUTPUT_RATES - 1]
}

/// Finds the position of a rate in the table.
pub fn rate_index(rate: u32) -> (index: Option<u8>)
    ensures
        index == output_rate_index(rate as int),
{
    let available: [u32; 8] = output_rates();
    let mut i: u8 = 0;
    while i < 8
        invariant
            0 <= i <= 8,
            available@ == output_rate_table(),
            forall|j: int| 0 <= j < i ==> rate != #[trigger] available@[j],
        decreases 8 - i,
    {
        if available[i as usize] == rate {
            return Some(i);
        }
        i = i + 1;
    }
    assert(rate != available@[0] && rate != available@[1] && rate != available@[2] && rate
        != available@[3] && rate != available@[4] && rate != available@[5] && rate
        != available@[6] && rate != available@[7]);
    None
}

} // verus!
