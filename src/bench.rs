//! Arithmetic of the peripheral timing benchmarks: averages, throughput, the
//! UART test message and the UART baud-rate divisors.
use vstd::prelude::*;

verus! {

/// Throughput reported when a UART transfer was too quick to time: the
/// bytes per second of a 115200-baud line with ten bits per byte.
pub const NOMINAL_UART_BYTES_PER_SEC: u64 = 11520;

/// Shortest UART transfer, in microseconds, whose throughput is computed.
pub const MIN_TIMED_TRANSFER_US: u64 = 10;

/// The mean of `count` samples adding up to `total`; zero when there are none.
pub fn average(total: u64, count: u64) -> (r: u64)
    ensures
        count > 0 ==> r == total / count,
        count == 0 ==> r == 0,
{
    if count > 0 {
        total / count
    } else {
        0
    }
}

/// Bytes per second of `bytes` sent in `duration_us` microseconds, rounded
/// down; zero for a zero duration.
pub fn bytes_per_second(bytes: u64, duration_us: u64) -> (r: u64)
    requires
        bytes <= u64::MAX / 1_000_000,
    ensures
        duration_us > 0 ==> r == (bytes * 1_000_000) / duration_us as int,
        duration_us == 0 ==> r == 0,
{
    if duration_us > 0 {
        (bytes * 1_000_000) / duration_us
    } else {
        0
    }
}

/// Throughput of a timed UART transfer: measured when it took more than
/// `MIN_TIMED_TRANSFER_US`, the nominal line rate otherwise.
pub fn uart_throughput(bytes: u64, duration_us: u64) -> (r: u64)
    requires
        bytes <= u64::MAX / 1_000_000,
    ensures
        duration_us > MIN_TIMED_TRANSFER_US ==> r == (bytes * 1_000_000) / duration_us as int,
        duration_us <= MIN_TIMED_TRANSFER_US ==> r == NOMINAL_UART_BYTES_PER_SEC,
{
    if duration_us > MIN_TIMED_TRANSFER_US {
        bytes_per_second(bytes, duration_us)
    } else {
        NOMINAL_UART_BYTES_PER_SEC
    }
}

/// The byte at position `i` of the test message of round `iteration`: the
/// letters `A` to `Z` in turn, shifted by the round.
pub open spec fn test_byte(i: int, iteration: int) -> u8 {
    (65 + (i + iteration) % 26) as u8
}

/// Writes the test message of round `iteration` into the first `size` bytes of
/// `buf` (as many as it holds), leaving the rest as it was.
pub fn fill_test_message(buf: &mut Vec<u8>, size: usize, iteration: usize)
    requires
        iteration <= usize::MAX / 2,
        old(buf)@.len() <= usize::MAX / 2,
    ensures
        final(buf)@.len() == old(buf)@.len(),
        forall|i: int|
            0 <= i < final(buf)@.len() ==> #[trigger] final(buf)@[i] == if i < size {
                test_byte(i, iteration as int)
            } else {
                old(buf)@[i]
            },
{
    let n = if size < buf.len() {
        size
    } else {
        buf.len()
    };
    let mut i: usize = 0;
    while i < n
        invariant
            n <= buf@.len(),
            n <= size,
            buf@.len() == old(buf)@.len(),
            old(buf)@.len() <= usize::MAX / 2,
            iteration <= usize::MAX / 2,
            i <= n,
            n == size || n == buf@.len(),
            forall|j: int|
                0 <= j < buf@.len() ==> #[trigger] buf@[j] == if j < i {
                    test_byte(j, iteration as int)
                } else {
                    old(buf)@[j]
                },
        decreases n - i,
    {
        let b = 65u8 + ((i + iteration) % 26) as u8;
        buf.set(i, b);
        i = i + 1;
    }
}

/// UART divisors for `baud` with a `clock_hz` peripheral clock: the divisor
/// is `clock_hz / (16 * baud)`, split into its integer part and its fraction
/// in 64ths, rounded to the nearest.
#[derive(Clone, Copy, Debug, PartialEq, Eq, Structural)]
pub struct BaudDivisor {
    pub integer: u32,
    pub fraction: u32,
}

/// The baud-rate divisors, from `8 * clock_hz / baud`, the divisor in units of
/// a 128th: the integer part is its 128ths, the fraction its remainder halved,
/// rounding half up.
pub fn baud_divisor(clock_hz: u32, baud: u32) -> (r: BaudDivisor)
    requires
        baud > 0,
        clock_hz <= u32::MAX / 8,
    ensures
        r.integer == (8 * clock_hz as int / baud as int) / 128,
        r.fraction == ((8 * clock_hz as int / baud as int) % 128 + 1) / 2,
{
    let div = (8 * clock_hz) / baud;
    let integer = div / 128;
    let fraction = (div % 128 + 1) / 2;
    BaudDivisor { integer, fraction }
}

} // verus!
