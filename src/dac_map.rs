//! Addressing of the DAC array: six four-channel DACs on one bus, 24
//! threshold channels in all, channel `4 * d + k` being channel `k` of DAC `d`.

use vstd::prelude::*;

verus! {

/// Number of DACs on the bus.
pub const DAC_COUNT: usize = 6;

/// Channels of each DAC.
pub const CHANNELS_PER_DAC: usize = 4;

/// Channels of the whole array.
pub const DAC_CHANNELS: usize = 24;

/// Bus address of DAC 0; DAC `d` answers at this address plus `d`.
pub const DAC_BASE_ADDRESS: u8 = 0x60;

/// Error of an operation on the DAC array; `E` is the error of a DAC
/// transaction.
#[derive(Debug)]
pub enum DacError<E> {
    /// No DAC has this index.
    InvalidDacId(usize),
    /// A DAC transaction failed.
    McpError(E),
}

/// `dac_id` itself when it names a DAC, before any bus activity.
pub fn check_dac_id<E>(dac_id: usize) -> (r: Result<usize, DacError<E>>)
    ensures
        dac_id < DAC_COUNT ==> r == Ok::<usize, DacError<E>>(dac_id),
        dac_id >= DAC_COUNT ==> r == Err::<usize, DacError<E>>(DacError::InvalidDacId(dac_id)),
{
    if dac_id < DAC_COUNT {
        Ok(dac_id)
    } else {
        Err(DacError::InvalidDacId(dac_id))
    }
}

/// The bus address of DAC `dac_id`.
pub fn dac_address(dac_id: usize) -> (a: u8)
    requires
        dac_id < DAC_COUNT,
    ensures
        a == DAC_BASE_ADDRESS + dac_id,
{
    DAC_BASE_ADDRESS + dac_id as u8
}

/// The four values of `values` that belong to DAC `dac_id`.
pub fn dac_group<T: Copy>(values: &[T; DAC_CHANNELS], dac_id: usize) -> (g: [T; CHANNELS_PER_DAC])
    requires
        dac_id < DAC_COUNT,
    ensures
        g@ == values@.subrange(
            (CHANNELS_PER_DAC * dac_id) as int,
            (CHANNELS_PER_DAC * dac_id + CHANNELS_PER_DAC) as int,
        ),
{
    let j = CHANNELS_PER_DAC * dac_id;
    let g = [values[j], values[j + 1], values[j + 2], values[j + 3]];
    assert(g@ =~= values@.subrange(j as int, j + CHANNELS_PER_DAC));
    g
}

} // verus!
