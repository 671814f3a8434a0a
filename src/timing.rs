use vstd::prelude::*;

verus! {

/// Whole microseconds in an interval of `secs` seconds and `nanos`
/// nanoseconds.
pub open spec fn micros_spec(secs: int, nanos: int) -> int {
    secs * 1_000_000 + nanos / 1000
}

/// The round-trip time to report, in whole microseconds, for a measured
/// interval of `secs` seconds and `nanos` nanoseconds. The result is wide
/// enough that no interval overflows it.
pub fn elapsed_micros(secs: u64, nanos: u32) -> (r: u128)
    ensures
        r == micros_spec(secs as int, nanos as int),
{
    assert(secs as int * 1_000_000 <= 0xffff_ffff_ffff_ffff * 1_000_000) by (nonlinear_arith)
        requires
            secs <= 0xffff_ffff_ffff_ffff,
    ;
    (secs as u128) * 1_000_000 + (nanos / 1000) as u128
}

/// Timing is monotone and never negative: if an exchange took at least as
/// long as a delay of `d_secs` seconds and `d_nanos` nanoseconds (both
/// intervals given as a duration is, with fewer than a billion
/// nanoseconds), the reported time is at least the delay's.
pub proof fn lemma_elapsed_covers_delay(d_secs: u64, d_nanos: u32, secs: u64, nanos: u32)
    requires
        d_nanos < 1_000_000_000,
        nanos < 1_000_000_000,
        d_secs < secs || (d_secs == secs && d_nanos <= nanos),
    ensures
        0 <= micros_spec(d_secs as int, d_nanos as int) <= micros_spec(secs as int, nanos as int),
{
    if d_secs < secs {
        assert(d_secs as int * 1_000_000 + 1_000_000 <= secs as int * 1_000_000) by (nonlinear_arith)
            requires
                d_secs < secs,
        ;
        assert(d_nanos as int / 1000 < 1_000_000);
    } else {
        assert(d_nanos as int / 1000 <= nanos as int / 1000) by (nonlinear_arith)
            requires
                d_nanos <= nanos,
        ;
    }
}

} // verus!
