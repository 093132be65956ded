//! Transcript grammar of the forced-calibration sequence.
//!
//! The sequencer walks the sensor through idle, configure, calibrate, poll
//! and back to idle. These predicates say which bus transcripts the walk
//! can leave behind: `calib_head` is the fixed configuration prefix,
//! `complete_polls` the poll phase of a finished run, `partial_polls` the
//! poll phase of a run that was cut short. The sequencer's contract is
//! stated with `calib_success` and `calib_aborted`.
use vstd::prelude::*;

use crate::driver::spec_be_hi;
use crate::driver::spec_be_lo;
use crate::regs::MeasurementMode;
use crate::regs::MeasurementStatus;
use crate::regs::OperatingMode;
use crate::regs::Register;
use crate::transport::BusOp;

verus! {

/// A measurement status read whose byte did not have `data_ready` set.
pub open spec fn op_is_status_not_ready(op: BusOp) -> bool {
    match op {
        BusOp::Read1 { reg, b0 } => reg == Register::MeasurementStatus.spec_address()
            && !MeasurementStatus::spec_from(b0).data_ready,
        _ => false,
    }
}

/// A measurement status read whose byte had `data_ready` set.
pub open spec fn op_is_status_ready(op: BusOp) -> bool {
    match op {
        BusOp::Read1 { reg, b0 } => reg == Register::MeasurementStatus.spec_address()
            && MeasurementStatus::spec_from(b0).data_ready,
        _ => false,
    }
}

/// A CO2 concentration read.
pub open spec fn op_is_co2_read(op: BusOp) -> bool {
    match op {
        BusOp::Read2 { reg, .. } => reg == Register::Co2Ppm.spec_address(),
        _ => false,
    }
}

/// A run of status polls none of which saw data ready.
pub open spec fn wait_run(s: Seq<BusOp>) -> bool {
    forall |i: int| 0 <= i < s.len() ==> op_is_status_not_ready(#[trigger] s[i])
}

/// One finished poll round: status polls that saw no data, then the one
/// that did, then exactly one CO2 read.
pub open spec fn complete_round(s: Seq<BusOp>) -> bool {
    &&& s.len() >= 2
    &&& wait_run(s.take(s.len() - 2))
    &&& op_is_status_ready(s[s.len() - 2])
    &&& op_is_co2_read(s[s.len() - 1])
}

/// Exactly `k` finished poll rounds, one after the other.
pub open spec fn complete_polls(s: Seq<BusOp>, k: nat) -> bool
    decreases k,
{
    if k == 0 {
        s.len() == 0
    } else {
        exists |m: int| 0 <= m <= s.len() && #[trigger] complete_round(s.take(m))
            && complete_polls(s.skip(m), (k - 1) as nat)
    }
}

/// A poll phase cut short while at most `k` rounds were planned: some
/// finished rounds, then either a run of unready polls, or such a run whose
/// last poll saw data ready but whose CO2 read never completed.
pub open spec fn partial_polls(s: Seq<BusOp>, k: nat) -> bool
    decreases k,
{
    if k == 0 {
        s.len() == 0
    } else {
        ||| wait_run(s)
        ||| (s.len() >= 1 && wait_run(s.take(s.len() - 1)) && op_is_status_ready(s[s.len() - 1]))
        ||| exists |m: int| 0 <= m <= s.len() && #[trigger] complete_round(s.take(m))
            && partial_polls(s.skip(m), (k - 1) as nat)
    }
}

/// The configuration prefix of the calibration sequence, after the entry
/// mode byte came back as `entry`: force idle, set a ten-second cadence,
/// write the reference `cal`, then enable forced compensation in
/// continuous mode.
pub open spec fn calib_head(entry: u8, cal: i16) -> Seq<BusOp> {
    seq![
        BusOp::Read1 { reg: Register::MeasurementMode.spec_address(), b0: entry },
        BusOp::Write1 {
            reg: Register::MeasurementMode.spec_address(),
            b0: MeasurementMode::spec_from(entry).with_operating_mode(OperatingMode::Idle).spec_encode(),
        },
        BusOp::Write2 { reg: Register::MeasurementRate.spec_address(), b0: 0, b1: 10 },
        BusOp::Write2 {
            reg: Register::CalibrationReference.spec_address(),
            b0: spec_be_hi(cal as int),
            b1: spec_be_lo(cal as int),
        },
        BusOp::Write1 {
            reg: Register::MeasurementMode.spec_address(),
            b0: MeasurementMode::spec_from(entry).with_forced_continuous().spec_encode(),
        },
    ]
}

/// The closing write of the calibration sequence: back to idle, keeping
/// the forced-continuous configuration's other bits.
pub open spec fn calib_exit_op(entry: u8) -> BusOp {
    BusOp::Write1 {
        reg: Register::MeasurementMode.spec_address(),
        b0: MeasurementMode::spec_from(entry).with_forced_continuous().with_operating_mode(
            OperatingMode::Idle,
        ).spec_encode(),
    }
}

/// The transcript a finished calibration run appends: the configuration
/// prefix, three finished poll rounds, and the closing idle write.
pub open spec fn calib_success(pre: Seq<BusOp>, post: Seq<BusOp>, cal: i16) -> bool {
    exists |entry: u8, polls: Seq<BusOp>|
        #![trigger calib_head(entry, cal), complete_polls(polls, 3)]
        {
            &&& complete_polls(polls, 3)
            &&& post == pre + calib_head(entry, cal) + polls + seq![calib_exit_op(entry)]
        }
}

/// The transcript an aborted calibration run leaves behind: either a
/// proper prefix of the configuration writes, or the full configuration
/// prefix and a poll phase that was cut short (the closing idle write
/// never completing included). Nothing is written after the failing step,
/// and the sensor is not rolled back to idle.
pub open spec fn calib_aborted(pre: Seq<BusOp>, post: Seq<BusOp>, cal: i16) -> bool {
    ||| exists |entry: u8, n: int|
        0 <= n <= 5 && post == pre + #[trigger] calib_head(entry, cal).take(n)
    ||| exists |entry: u8, polls: Seq<BusOp>|
        #![trigger calib_head(entry, cal), partial_polls(polls, 3)]
        {
            &&& partial_polls(polls, 3)
            &&& post == pre + calib_head(entry, cal) + polls
        }
}

/// How many status polls in a transcript came back without data ready.
/// Every one of them cost the sequencer a backoff wait.
pub open spec fn count_unready(s: Seq<BusOp>) -> int
    decreases s.len(),
{
    if s.len() == 0 {
        0
    } else {
        count_unready(s.drop_last()) + (if op_is_status_not_ready(s.last()) {
            1int
        } else {
            0int
        })
    }
}

/// A wait transcript made of the poll backoffs alone.
pub open spec fn all_poll_waits(s: Seq<u32>) -> bool {
    forall |i: int| 0 <= i < s.len() ==> #[trigger] s[i] == 100
}

/// A wait transcript made of poll backoffs and settle waits.
pub open spec fn calib_waits(s: Seq<u32>) -> bool {
    forall |i: int| 0 <= i < s.len() ==> (#[trigger] s[i] == 100 || s[i] == 1000)
}

/// Concatenation splits the unready-poll count.
pub proof fn lemma_count_unready_concat(a: Seq<BusOp>, b: Seq<BusOp>)
    ensures
        count_unready(a + b) == count_unready(a) + count_unready(b),
    decreases b.len(),
{
    if b.len() == 0 {
        assert(a + b =~= a);
    } else {
        lemma_count_unready_concat(a, b.drop_last());
        assert((a + b).drop_last() =~= a + b.drop_last());
        assert((a + b).last() == b.last());
    }
}

/// A transcript without any unready status poll counts zero.
pub proof fn lemma_count_unready_none(s: Seq<BusOp>)
    requires
        forall |i: int| 0 <= i < s.len() ==> !op_is_status_not_ready(#[trigger] s[i]),
    ensures
        count_unready(s) == 0,
    decreases s.len(),
{
    if s.len() > 0 {
        assert(!op_is_status_not_ready(s[s.len() - 1]));
        lemma_count_unready_none(s.drop_last());
    }
}

/// A run of unready status polls counts its whole length.
pub proof fn lemma_count_unready_wait_run(s: Seq<BusOp>)
    requires
        wait_run(s),
    ensures
        count_unready(s) == s.len(),
    decreases s.len(),
{
    if s.len() > 0 {
        assert(op_is_status_not_ready(s[s.len() - 1]));
        assert(wait_run(s.drop_last()));
        lemma_count_unready_wait_run(s.drop_last());
    }
}

/// No step of the configuration prefix is an unready status poll: its one
/// read is of the mode register, the rest are writes.
pub proof fn lemma_count_unready_head(entry: u8, cal: i16)
    ensures
        count_unready(calib_head(entry, cal)) == 0,
        forall |n: int| 0 <= n <= 5 ==> count_unready(#[trigger] calib_head(entry, cal).take(n)) == 0,
{
    let h = calib_head(entry, cal);
    assert(!op_is_status_not_ready(h[0]));
    assert(!op_is_status_not_ready(h[1]));
    assert(!op_is_status_not_ready(h[2]));
    assert(!op_is_status_not_ready(h[3]));
    assert(!op_is_status_not_ready(h[4]));
    lemma_count_unready_none(h);
    assert forall |n: int| 0 <= n <= 5 implies count_unready(#[trigger] h.take(n)) == 0 by {
        assert(forall |i: int| 0 <= i < h.take(n).len() ==> !op_is_status_not_ready(
            #[trigger] h.take(n)[i],
        ));
        lemma_count_unready_none(h.take(n));
    }
}

/// A transcript extended by a proper prefix of the configuration writes is
/// an aborted run, and holds no unready status poll.
pub proof fn lemma_abort_prefix(pre: Seq<BusOp>, post: Seq<BusOp>, cal: i16, entry: u8, n: int)
    requires
        0 <= n <= 5,
        post == pre + calib_head(entry, cal).take(n),
    ensures
        calib_aborted(pre, post, cal),
        count_unready(post.skip(pre.len() as int)) == 0,
{
    lemma_count_unready_head(entry, cal);
    assert(post.skip(pre.len() as int) =~= calib_head(entry, cal).take(n));
}

/// Appending one finished round to `k` finished rounds gives `k + 1`
/// finished rounds.
pub proof fn lemma_complete_polls_push_round(p: Seq<BusOp>, r: Seq<BusOp>, k: nat)
    requires
        complete_polls(p, k),
        complete_round(r),
    ensures
        complete_polls(p + r, (k + 1) as nat),
    decreases k,
{
    if k == 0 {
        assert(p + r =~= r);
        let m = r.len() as int;
        assert(r.take(m) =~= r);
        assert(complete_round(r.take(m)));
        assert(r.skip(m) =~= Seq::<BusOp>::empty());
        assert(complete_polls(r.skip(m), 0));
        assert(complete_polls(p + r, 1));
    } else {
        let m = choose |m: int| 0 <= m <= p.len() && #[trigger] complete_round(p.take(m))
            && complete_polls(p.skip(m), (k - 1) as nat);
        lemma_complete_polls_push_round(p.skip(m), r, (k - 1) as nat);
        assert((p + r).take(m) =~= p.take(m));
        assert((p + r).skip(m) =~= p.skip(m) + r);
        assert(complete_round((p + r).take(m)));
        assert(complete_polls((p + r).skip(m), k));
        assert(complete_polls(p + r, (k + 1) as nat));
    }
}

/// After `k` finished rounds out of at most `n`, a trailing run of unready
/// polls is a poll phase cut short. When all `n` rounds finished, only the
/// empty trail qualifies.
pub proof fn lemma_partial_after_complete(p: Seq<BusOp>, s: Seq<BusOp>, k: nat, n: nat)
    requires
        complete_polls(p, k),
        k <= n,
        wait_run(s),
        k == n ==> s.len() == 0,
    ensures
        partial_polls(p + s, n),
    decreases k,
{
    if k == 0 {
        assert(p.len() == 0);
        assert(p + s =~= s);
        if n == 0 {
            assert(partial_polls(p + s, n));
        } else {
            assert(wait_run(p + s));
            assert(partial_polls(p + s, n));
        }
    } else {
        let m = choose |m: int| 0 <= m <= p.len() && #[trigger] complete_round(p.take(m))
            && complete_polls(p.skip(m), (k - 1) as nat);
        lemma_partial_after_complete(p.skip(m), s, (k - 1) as nat, (n - 1) as nat);
        assert((p + s).take(m) =~= p.take(m));
        assert((p + s).skip(m) =~= p.skip(m) + s);
        assert(complete_round((p + s).take(m)));
        assert(partial_polls((p + s).skip(m), (n - 1) as nat));
        assert(partial_polls(p + s, n));
    }
}

/// After `k` finished rounds out of more than `k` planned, a trailing run
/// of unready polls whose last poll saw data ready is a poll phase cut
/// short.
pub proof fn lemma_partial_after_ready(p: Seq<BusOp>, s: Seq<BusOp>, rop: BusOp, k: nat, n: nat)
    requires
        complete_polls(p, k),
        k < n,
        wait_run(s),
        op_is_status_ready(rop),
    ensures
        partial_polls(p + s.push(rop), n),
    decreases k,
{
    if k == 0 {
        assert(p.len() == 0);
        let t = s.push(rop);
        assert(p + t =~= t);
        assert(t.take(t.len() - 1) =~= s);
        assert(t[t.len() - 1] == rop);
        assert(partial_polls(p + t, n));
    } else {
        let m = choose |m: int| 0 <= m <= p.len() && #[trigger] complete_round(p.take(m))
            && complete_polls(p.skip(m), (k - 1) as nat);
        lemma_partial_after_ready(p.skip(m), s, rop, (k - 1) as nat, (n - 1) as nat);
        let t = s.push(rop);
        assert((p + t).take(m) =~= p.take(m));
        assert((p + t).skip(m) =~= p.skip(m) + t);
        assert(complete_round((p + t).take(m)));
        assert(partial_polls((p + t).skip(m), (n - 1) as nat));
        assert(partial_polls(p + t, n));
    }
}

/// Closing a round: the wait run, the ready poll and the sample read make
/// one more finished round, and only the wait run adds to the unready
/// count.
pub proof fn lemma_round_count(p: Seq<BusOp>, run: Seq<BusOp>, sop: BusOp, cop: BusOp, k: nat)
    requires
        complete_polls(p, k),
        wait_run(run),
        op_is_status_ready(sop),
        op_is_co2_read(cop),
    ensures
        complete_polls(p + run.push(sop).push(cop), (k + 1) as nat),
        count_unready(p + run.push(sop).push(cop)) == count_unready(p) + run.len(),
{
    let round_seq = run.push(sop).push(cop);
    assert(round_seq.take(round_seq.len() - 2) =~= run);
    assert(complete_round(round_seq));
    lemma_complete_polls_push_round(p, round_seq, k);
    let tail = seq![sop, cop];
    assert(round_seq =~= run + tail);
    assert(!op_is_status_not_ready(sop));
    assert(!op_is_status_not_ready(cop));
    assert(forall |i: int| 0 <= i < tail.len() ==> !op_is_status_not_ready(#[trigger] tail[i]));
    lemma_count_unready_none(tail);
    lemma_count_unready_concat(run, tail);
    lemma_count_unready_wait_run(run);
    lemma_count_unready_concat(p, round_seq);
}

/// A run cut short in the poll phase, after a trailing run of unready
/// polls: the transcript is an aborted run, and its unready count is the
/// finished rounds' plus the trailing run's length.
pub proof fn lemma_abort_poll_phase(
    pre: Seq<BusOp>,
    post: Seq<BusOp>,
    cal: i16,
    entry: u8,
    polls: Seq<BusOp>,
    run: Seq<BusOp>,
    k: nat,
)
    requires
        complete_polls(polls, k),
        k <= 3,
        k == 3 ==> run.len() == 0,
        wait_run(run),
        post == pre + calib_head(entry, cal) + (polls + run),
    ensures
        calib_aborted(pre, post, cal),
        partial_polls(polls + run, 3),
        count_unready(post.skip(pre.len() as int)) == count_unready(polls) + run.len(),
{
    lemma_partial_after_complete(polls, run, k, 3);
    assert(partial_polls(polls + run, 3));
    lemma_count_unready_head(entry, cal);
    lemma_count_unready_concat(polls, run);
    lemma_count_unready_wait_run(run);
    lemma_count_unready_concat(calib_head(entry, cal), polls + run);
    assert(post.skip(pre.len() as int) =~= calib_head(entry, cal) + (polls + run));
}

/// A run cut short between the ready poll and its sample read: the
/// transcript is an aborted run, and the ready poll itself adds nothing
/// to the unready count.
pub proof fn lemma_abort_poll_phase_ready(
    pre: Seq<BusOp>,
    post: Seq<BusOp>,
    cal: i16,
    entry: u8,
    polls: Seq<BusOp>,
    run: Seq<BusOp>,
    rop: BusOp,
    k: nat,
)
    requires
        complete_polls(polls, k),
        k < 3,
        wait_run(run),
        op_is_status_ready(rop),
        post == pre + calib_head(entry, cal) + (polls + run.push(rop)),
    ensures
        calib_aborted(pre, post, cal),
        partial_polls(polls + run.push(rop), 3),
        count_unready(post.skip(pre.len() as int)) == count_unready(polls) + run.len(),
{
    lemma_partial_after_ready(polls, run, rop, k, 3);
    assert(partial_polls(polls + run.push(rop), 3));
    lemma_count_unready_head(entry, cal);
    let tail = seq![rop];
    assert(run.push(rop) =~= run + tail);
    assert(!op_is_status_not_ready(rop));
    assert(forall |i: int| 0 <= i < tail.len() ==> !op_is_status_not_ready(#[trigger] tail[i]));
    lemma_count_unready_none(tail);
    lemma_count_unready_concat(run, tail);
    lemma_count_unready_wait_run(run);
    lemma_count_unready_concat(polls, run.push(rop));
    lemma_count_unready_concat(calib_head(entry, cal), polls + run.push(rop));
    assert(post.skip(pre.len() as int) =~= calib_head(entry, cal) + (polls + run.push(rop)));
}

/// A finished run: the transcript is a successful run, and its unready
/// count is the poll phase's alone — the configuration prefix and the
/// closing idle write add nothing.
pub proof fn lemma_success_counts(
    pre: Seq<BusOp>,
    post: Seq<BusOp>,
    cal: i16,
    entry: u8,
    polls: Seq<BusOp>,
)
    requires
        complete_polls(polls, 3),
        post == pre + calib_head(entry, cal) + polls + seq![calib_exit_op(entry)],
    ensures
        calib_success(pre, post, cal),
        count_unready(post.skip(pre.len() as int)) == count_unready(polls),
{
    lemma_count_unready_head(entry, cal);
    let tail = seq![calib_exit_op(entry)];
    assert(!op_is_status_not_ready(calib_exit_op(entry)));
    assert(forall |i: int| 0 <= i < tail.len() ==> !op_is_status_not_ready(#[trigger] tail[i]));
    lemma_count_unready_none(tail);
    lemma_count_unready_concat(calib_head(entry, cal), polls);
    lemma_count_unready_concat(calib_head(entry, cal) + polls, tail);
    assert(post.skip(pre.len() as int) =~= calib_head(entry, cal) + polls + seq![
        calib_exit_op(entry),
    ]);
}

} // verus!
