//! The Recovery Time Stamp IE (3GPP TS 29.244 clause 8.2.65): when the node
//! last started, as 32-bit NTP seconds (seconds since 1900-01-01, modulo 2^32).
use crate::bytes::{be32, be32_value, lemma_be32_roundtrip, push_be32, read_be32};
use crate::error::PfcpError;
use crate::ie::{Ie, IeType, IeView};
use std::time::{Duration, SystemTime};
use vstd::prelude::*;

verus! {

/// `std::time::SystemTime`, so that it can stand in signatures; what a value holds is
/// not visible.
#[verifier::external_type_specification]
#[verifier::external_body]
pub struct ExSystemTime(SystemTime);

/// Seconds from the NTP epoch (1900) to the Unix epoch (1970).
pub const NTP_UNIX_OFFSET: u64 = 2208988800;

/// The span from the Unix epoch to `t`, or `None` when `t` is earlier than
/// the epoch: what `SystemTime::duration_since(UNIX_EPOCH)` returns.
pub uninterp spec fn since_unix_epoch(t: SystemTime) -> Option<Duration>;

/// The whole seconds that `d` contains: what `Duration::as_secs` returns.
pub uninterp spec fn whole_seconds(d: Duration) -> u64;

/// The span of `secs` seconds: what `Duration::from_secs` returns.
pub uninterp spec fn duration_of_seconds(secs: u64) -> Duration;

/// The time `d` after the Unix epoch: what `UNIX_EPOCH + d` gives.
pub uninterp spec fn unix_epoch_plus(d: Duration) -> SystemTime;

/// `SystemTime::duration_since` with `UNIX_EPOCH` as the earlier time; an
/// error (`t` before the epoch) becomes `None`. The result is a function of
/// `t` alone.
#[verifier::external_body]
fn duration_since_unix_epoch(t: SystemTime) -> (r: Option<Duration>)
    ensures
        r == since_unix_epoch(t),
{
    t.duration_since(std::time::UNIX_EPOCH).ok()
}

/// `Duration::as_secs`: the whole seconds of `d`.
#[verifier::external_body]
fn duration_whole_seconds(d: Duration) -> (r: u64)
    ensures
        r == whole_seconds(d),
{
    d.as_secs()
}

/// `Duration::from_secs`: the span of `secs` whole seconds, whose whole
/// seconds (`as_secs`) are `secs`.
#[verifier::external_body]
fn duration_from_secs(secs: u64) -> (r: Duration)
    ensures
        r == duration_of_seconds(secs),
        whole_seconds(r) == secs,
{
    Duration::from_secs(secs)
}

/// `UNIX_EPOCH + d` (`SystemTime`'s `Add<Duration>`). The addition panics
/// when the result cannot be represented; spans of at most 2^32 seconds
/// (until the year 2106) are representable on every platform, so only
/// those are accepted.
#[verifier::external_body]
fn unix_epoch_plus_duration(d: Duration) -> (r: SystemTime)
    requires
        whole_seconds(d) <= 0x1_0000_0000u64,
    ensures
        r == unix_epoch_plus(d),
{
    std::time::UNIX_EPOCH + d
}

/// The whole seconds from the Unix epoch to `t`; a time before the epoch
/// counts as the epoch.
pub open spec fn unix_seconds_of(t: SystemTime) -> u64 {
    match since_unix_epoch(t) {
        Some(d) => whole_seconds(d),
        None => 0,
    }
}

/// The time `secs` whole seconds after the Unix epoch.
pub open spec fn system_time_at(secs: u64) -> SystemTime {
    unix_epoch_plus(duration_of_seconds(secs))
}

/// 32-bit NTP seconds for a count of seconds since the Unix epoch.
pub open spec fn ntp_seconds_of_unix(unix: u64) -> u32 {
    ((unix + NTP_UNIX_OFFSET) % 4294967296) as u32
}

/// The seconds since the Unix epoch that 32-bit NTP seconds stand for,
/// reading values below the offset as the next NTP era (after 2036).
pub open spec fn unix_of_ntp_seconds(ntp: u32) -> u64 {
    if ntp >= NTP_UNIX_OFFSET {
        (ntp - NTP_UNIX_OFFSET) as u64
    } else {
        (ntp + 4294967296 - NTP_UNIX_OFFSET) as u64
    }
}

/// The Recovery Time Stamp IE for the time `unix` seconds after the Unix epoch.
pub open spec fn recovery_time_stamp_ie_view(unix: u64) -> IeView {
    IeView { ie_type: IeType::RecoveryTimeStamp, payload: be32(ntp_seconds_of_unix(unix)) }
}

/// A recovery time stamp, held as 32-bit NTP seconds.
#[derive(Debug, Clone, Copy, PartialEq, Eq, Structural)]
pub struct RecoveryTimeStamp {
    pub seconds: u32,
}

impl View for RecoveryTimeStamp {
    type V = RecoveryTimeStamp;

    open spec fn view(&self) -> RecoveryTimeStamp {
        *self
    }
}

/// Decoding a Recovery Time Stamp payload: its first four octets, big-endian.
pub open spec fn spec_parse_recovery_time_stamp(b: Seq<u8>) -> Result<RecoveryTimeStamp, PfcpError> {
    if b.len() < 4 {
        Err(PfcpError::InvalidLength { ie_type: Some(IeType::RecoveryTimeStamp), expected: 4, actual: b.len() as usize })
    } else {
        Ok(RecoveryTimeStamp { seconds: be32_value(b.subrange(0, 4)) })
    }
}

impl RecoveryTimeStamp {
    /// The recovery time stamp for `timestamp`, truncated to whole seconds; a
    /// time before the Unix epoch counts as the Unix epoch.
    pub fn new(timestamp: SystemTime) -> (r: RecoveryTimeStamp)
        ensures
            r.seconds == ntp_seconds_of_unix(unix_seconds_of(timestamp)),
    {
        let unix = match duration_since_unix_epoch(timestamp) {
            Some(d) => duration_whole_seconds(d),
            None => 0,
        };
        Self::from_unix_seconds(unix)
    }

    /// The recovery time stamp `unix` seconds after the Unix epoch.
    pub fn from_unix_seconds(unix: u64) -> (r: RecoveryTimeStamp)
        ensures
            r.seconds == ntp_seconds_of_unix(unix),
    {
        let s = ((unix as u128 + NTP_UNIX_OFFSET as u128) % 4294967296) as u32;
        RecoveryTimeStamp { seconds: s }
    }

    /// The recovery time stamp of 32-bit NTP seconds.
    pub fn from_ntp_seconds(seconds: u32) -> (r: RecoveryTimeStamp)
        ensures
            r.seconds == seconds,
    {
        RecoveryTimeStamp { seconds }
    }

    /// The seconds since the Unix epoch that the time stamp stands for.
    pub fn unix_seconds(&self) -> (r: u64)
        ensures
            r == unix_of_ntp_seconds(self.seconds),
    {
        if self.seconds as u64 >= NTP_UNIX_OFFSET {
            self.seconds as u64 - NTP_UNIX_OFFSET
        } else {
            self.seconds as u64 + 4294967296 - NTP_UNIX_OFFSET
        }
    }

    /// The time the time stamp stands for, in whole seconds.
    pub fn timestamp(&self) -> (r: SystemTime)
        ensures
            r == system_time_at(unix_of_ntp_seconds(self.seconds)),
    {
        let d = duration_from_secs(self.unix_seconds());
        unix_epoch_plus_duration(d)
    }

    /// The payload: the seconds, big-endian.
    pub fn marshal(&self) -> (r: Vec<u8>)
        ensures
            r@ == be32(self.seconds),
    {
        let mut v: Vec<u8> = Vec::new();
        push_be32(&mut v, self.seconds);
        assert(v@ =~= be32(self.seconds));
        v
    }

    /// Decodes a Recovery Time Stamp payload.
    pub fn unmarshal(payload: &[u8]) -> (r: Result<RecoveryTimeStamp, PfcpError>)
        ensures
            r == spec_parse_recovery_time_stamp(payload@),
    {
        if payload.len() < 4 {
            return Err(PfcpError::InvalidLength { ie_type: Some(IeType::RecoveryTimeStamp), expected: 4, actual: payload.len() });
        }
        Ok(RecoveryTimeStamp { seconds: read_be32(payload, 0) })
    }

    /// The Recovery Time Stamp IE carrying this value.
    pub fn to_ie(&self) -> (r: Ie)
        ensures
            r@ == (IeView { ie_type: IeType::RecoveryTimeStamp, payload: be32(self.seconds) }),
    {
        Ie::new(IeType::RecoveryTimeStamp, self.marshal())
    }
}

/// Every time stamp reads back as itself.
pub proof fn lemma_recovery_time_stamp_roundtrip(t: RecoveryTimeStamp)
    ensures
        spec_parse_recovery_time_stamp(be32(t.seconds)) == Ok::<RecoveryTimeStamp, PfcpError>(t),
{
    lemma_be32_roundtrip(t.seconds);
    assert(be32(t.seconds).subrange(0, 4) =~= be32(t.seconds));
}

} // verus!
