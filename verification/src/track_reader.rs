//! Fault tolerance of the receiver's audio track reader: it counts the packets it reads
//! and the errors it meets, gives up after 100 packets with more than 50 errors, and
//! starts counting afresh after 100 errors.

use vstd::prelude::*;

verus! {

/// What happened in one round of reading the track.
#[derive(Debug, Clone, Copy, PartialEq, Eq, Structural)]
pub enum RtpReadEvent {
    /// A packet was read and its payload decoded.
    Decoded,
    /// A packet was read but its payload could not be decoded.
    DecodeFailed,
    /// Reading a packet failed.
    ReadFailed,
    /// The reader was notified (the connection failed).
    Notified,
}

/// Whether the reader goes on.
#[derive(Debug, Clone, Copy, PartialEq, Eq, Structural)]
pub enum ReadTrackVerdict {
    KeepReading,
    /// The reader stops with the error "Too many errors".
    TooManyErrors,
}

/// The counters of the track reader.
#[derive(Debug, Clone, Copy, PartialEq, Eq, Structural)]
pub struct ReadTrackCounters {
    pub errors: i32,
    pub packets: i32,
}

/// The check made after a round: give up at exactly 100 packets with more than 50
/// errors; else reset both counters at exactly 100 errors. Gives the counters after
/// the check and whether the reader gives up.
pub open spec fn check_counters(errors: int, packets: int) -> (int, int, bool) {
    if packets == 100 && errors > 50 {
        (errors, packets, true)
    } else if errors == 100 {
        (0, 0, false)
    } else {
        (errors, packets, false)
    }
}

/// One round of the reader: a decode failure counts an error and skips the check; a
/// decoded packet counts a packet; a failed read counts an error and a packet; a
/// notification counts nothing. All but a decode failure are followed by the check.
pub open spec fn read_track_step(errors: int, packets: int, event: RtpReadEvent) -> (int, int, bool) {
    match event {
        RtpReadEvent::DecodeFailed => (errors + 1, packets, false),
        RtpReadEvent::Decoded => check_counters(errors, packets + 1),
        RtpReadEvent::ReadFailed => check_counters(errors + 1, packets + 1),
        RtpReadEvent::Notified => check_counters(errors, packets),
    }
}

/// The counting of an event fits in `i32`.
pub open spec fn step_fits(errors: i32, packets: i32, event: RtpReadEvent) -> bool {
    &&& (event == RtpReadEvent::DecodeFailed || event == RtpReadEvent::ReadFailed) ==> errors
        < i32::MAX
    &&& (event == RtpReadEvent::Decoded || event == RtpReadEvent::ReadFailed) ==> packets
        < i32::MAX
}

impl ReadTrackCounters {
    /// Counters of a reader that has read nothing yet.
    pub fn new() -> (c: ReadTrackCounters)
        ensures
            c.errors == 0,
            c.packets == 0,
    {
        ReadTrackCounters { errors: 0, packets: 0 }
    }

    /// Counts one round of reading and says whether the reader goes on.
    pub fn record(&mut self, event: RtpReadEvent) -> (verdict: ReadTrackVerdict)
        requires
            step_fits(old(self).errors, old(self).packets, event),
        ensures
            (final(self).errors as int, final(self).packets as int, verdict
                == ReadTrackVerdict::TooManyErrors) == read_track_step(
                old(self).errors as int,
                old(self).packets as int,
                event,
            ),
    {
        match event {
            RtpReadEvent::DecodeFailed => {
                self.errors = self.errors + 1;
                return ReadTrackVerdict::KeepReading;
            },
            RtpReadEvent::Decoded => {
                self.packets = self.packets + 1;
            },
            RtpReadEvent::ReadFailed => {
                self.errors = self.errors + 1;
                self.packets = self.packets + 1;
            },
            RtpReadEvent::Notified => {},
        }
        if self.packets == 100 && self.errors > 50 {
            ReadTrackVerdict::TooManyErrors
        } else {
            if self.errors == 100 {
                self.errors = 0;
                self.packets = 0;
            }
            ReadTrackVerdict::KeepReading
        }
    }
}

/// The counters never become negative: every round keeps them at zero or above.
pub proof fn lemma_counters_stay_nonnegative(errors: int, packets: int, event: RtpReadEvent)
    requires
        errors >= 0,
        packets >= 0,
    ensures
        read_track_step(errors, packets, event).0 >= 0,
        read_track_step(errors, packets, event).1 >= 0,
{
}

/// A reader that has met no error keeps reading and has still met no error after any
/// round in which the read and the decode succeed or it is notified.
pub proof fn lemma_no_errors_keep_reading(packets: int, event: RtpReadEvent)
    requires
        event == RtpReadEvent::Decoded || event == RtpReadEvent::Notified,
    ensures
        !read_track_step(0, packets, event).2,
        read_track_step(0, packets, event).0 == 0,
{
}

/// The reader gives up only when it has counted exactly 100 packets of which more than
/// 50 failed, and never on a round whose decode failed.
pub proof fn lemma_gives_up_only_on_error_majority(errors: int, packets: int, event: RtpReadEvent)
    requires
        read_track_step(errors, packets, event).2,
    ensures
        event != RtpReadEvent::DecodeFailed,
        read_track_step(errors, packets, event).1 == 100,
        read_track_step(errors, packets, event).0 > 50,
{
}

/// Once a round has been counted, a reader whose packet count is exactly 100 and whose
/// error count exceeds 50 gives up, whatever the reset rule would say: a failed read
/// counts one error and one packet, a decoded packet one packet, a notification nothing.
pub proof fn lemma_error_majority_gives_up(errors: int, packets: int, event: RtpReadEvent)
    requires
        event != RtpReadEvent::DecodeFailed,
        packets + (if event == RtpReadEvent::Notified { 0int } else { 1int }) == 100,
        errors + (if event == RtpReadEvent::ReadFailed { 1int } else { 0int }) > 50,
    ensures
        read_track_step(errors, packets, event).2,
{
}

/// A track whose every read fails is given up on: from fresh counters, the first 99
/// failed reads keep the reader going with both counters equal to the number of rounds,
/// and the 100th ends it.
pub proof fn lemma_dead_track_given_up(k: int)
    requires
        0 <= k < 100,
    ensures
        k < 99 ==> read_track_step(k, k, RtpReadEvent::ReadFailed) == (k + 1, k + 1, false),
        k == 99 ==> read_track_step(k, k, RtpReadEvent::ReadFailed).2,
{
}

/// The effect of one round, stated on the counts after the round is counted (a failed
/// read adds an error and a packet, a decoded packet adds a packet, a notification
/// nothing): the reader gives up exactly when there are then 100 packets with more than
/// 50 errors; otherwise, at exactly 100 errors both counters start again from 0, and
/// else they keep the counted values. A decode failure adds an error and nothing else.
pub proof fn lemma_round_effect(errors: int, packets: int, event: RtpReadEvent)
    ensures
        event == RtpReadEvent::DecodeFailed ==> read_track_step(errors, packets, event) == (
            errors + 1,
            packets,
            false,
        ),
        event != RtpReadEvent::DecodeFailed ==> ({
            let e = errors + (if event == RtpReadEvent::ReadFailed { 1int } else { 0int });
            let p = packets + (if event == RtpReadEvent::Notified { 0int } else { 1int });
            &&& read_track_step(errors, packets, event).2 == (p == 100 && e > 50)
            &&& !(p == 100 && e > 50) && e == 100 ==> read_track_step(errors, packets, event).0
                == 0 && read_track_step(errors, packets, event).1 == 0
            &&& !(p == 100 && e > 50) && e != 100 ==> read_track_step(errors, packets, event).0
                == e && read_track_step(errors, packets, event).1 == p
        }),
{
}

} // verus!
