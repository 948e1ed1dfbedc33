use vstd::prelude::*;

verus! {

/// Whole seconds since the Unix epoch, read with `std::time::SystemTime::elapsed`
/// on `UNIX_EPOCH`; `None` where the clock stands before the epoch. Nothing is
/// claimed of the value: it depends on the machine's clock.
#[verifier::external_body]
pub(crate) fn unix_time() -> (since_epoch: Option<u64>) {
    match std::time::UNIX_EPOCH.elapsed() {
        Ok(elapsed) => Some(elapsed.as_secs()),
        Err(_) => None,
    }
}

/// The clock may give this reading: it is what a call of the clock returned.
pub closed spec fn clock_reads(since_epoch: Option<u64>) -> bool {
    call_ensures(unix_time, (), since_epoch)
}

/// Reads the clock.
pub(crate) fn read_clock() -> (since_epoch: Option<u64>)
    ensures
        clock_reads(since_epoch),
{
    unix_time()
}

/// What counts as a reading of the clock came back from a call of it.
pub(crate) proof fn law_readings_come_from_the_clock(since_epoch: Option<u64>)
    requires
        clock_reads(since_epoch),
    ensures
        call_ensures(unix_time, (), since_epoch),
{
}

/// The 32-bit time stamp of a clock reading: the seconds modulo `2^32`, or zero for
/// a clock that stands before the epoch.
pub open spec fn stamp_of(since_epoch: Option<u64>) -> u32 {
    match since_epoch {
        Some(secs) => (secs as int % 0x1_0000_0000) as u32,
        None => 0,
    }
}

/// Reduces a clock reading to a 32-bit time stamp.
pub fn stamp(since_epoch: Option<u64>) -> (now: u32)
    ensures
        now == stamp_of(since_epoch),
        since_epoch is None ==> now == 0,
        since_epoch matches Some(secs) ==> now as int == secs as int % 0x1_0000_0000,
{
    match since_epoch {
        Some(secs) => {
            (secs % 0x1_0000_0000) as u32
        },
        None => 0,
    }
}

/// A stamp tells the seconds of its reading up to a multiple of `2^32`: readings that
/// fit in 32 bits are their own stamps, and a reading `2^32` seconds later has the same.
pub proof fn law_stamps_count_seconds(secs: u64)
    ensures
        secs <= u32::MAX ==> stamp_of(Some(secs)) == secs,
        secs + 0x1_0000_0000 <= u64::MAX ==> stamp_of(Some((secs + 0x1_0000_0000) as u64))
            == stamp_of(Some(secs)),
        (secs - stamp_of(Some(secs))) % 0x1_0000_0000 == 0,
        stamp_of(None) == 0,
{
}

} // verus!
