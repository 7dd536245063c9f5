//! The waits of the driver: after a write, what to do with each report read
//! until the reply or the MCU report waited for comes, or the wait gives up.
//!
//! The caller writes the report that starts a wait, then reads reports one
//! by one and hands each to [`JoyCon::on_report`], which says what to do
//! next: read again, write a report again, or stop with a result or an
//! error.
use crate::common::{IdEnum, InputReportId, SubcommandId};
use crate::hid::{is_reply_to, same_settings, JoyCon, McuCondition, ReplyStatus, WAIT_TIMEOUT};
use crate::input::{InputReport, SubcommandReply};
use crate::mcu::{MCUMode, MCUReport, MCUReportId, MCURequest};
use crate::output::{OutputReport, OutputReportId, RumbleData, SubcommandRequest};
use vstd::prelude::*;

verus! {

/// What a wait is for, and how far it has gone.
#[derive(Copy, Clone, Debug)]
pub enum Waiting {
    /// The reply to `subcmd`; `reads` reports were not it.
    Reply { subcmd: SubcommandRequest, reads: u32 },
    /// The reply to `subcmd` with a status of the MCU in `mode`; the
    /// subcommand is sent again while the MCU is in another mode.
    ReplyInMode { subcmd: SubcommandRequest, mode: MCUMode, reads: u32 },
    /// An MCU report meeting `cond`; `request` was sent `sends` times, and
    /// `reads` reports were read since the last send.
    Mcu { request: MCURequest, cond: McuCondition, sends: u32, reads: u32 },
    /// An MCU report meeting `cond`, with nothing sent.
    Report { cond: McuCondition },
}

/// What to do after a report read during a wait.
#[derive(Copy, Clone, Debug)]
pub enum WaitOutcome {
    /// Read the next report.
    Read,
    /// Write this report, stamped, then read the next report.
    Write(OutputReport),
    /// The reply waited for, acknowledged.
    Reply(SubcommandReply),
    /// The MCU report waited for.
    Mcu(MCUReport),
    /// The controller refused the subcommand.
    Nack,
    /// The reply to a change of the MCU mode carries no status of the MCU.
    NoMcuStatus,
    /// No reply came within the reports read.
    SubcmdTimeout,
    /// No MCU report came within the requests sent.
    McuTimeout,
}

impl Waiting {
    /// The counts stay below their limits.
    pub open spec fn wf(self) -> bool {
        match self {
            Waiting::Reply { reads, .. } => reads < WAIT_TIMEOUT,
            Waiting::ReplyInMode { reads, .. } => reads < WAIT_TIMEOUT,
            Waiting::Mcu { sends, reads, .. } => 1 <= sends <= WAIT_TIMEOUT && reads < WAIT_TIMEOUT,
            Waiting::Report { .. } => true,
        }
    }
}

/// What a report read during a wait leads to, as the contracts see it: the
/// report to write is given before it is stamped.
pub enum WaitKind {
    Read,
    Write(OutputReport),
    Reply,
    Mcu,
    Nack,
    NoMcuStatus,
    SubcmdTimeout,
    McuTimeout,
}

impl Waiting {
    /// The wait after `report` is read, and what that report leads to.
    pub open spec fn step(self, report: InputReport) -> (Waiting, WaitKind) {
        match self {
            Waiting::Reply { subcmd, reads } => if is_reply_to(subcmd, report) {
                (self, if acked(report) { WaitKind::Reply } else { WaitKind::Nack })
            } else if reads + 1 < WAIT_TIMEOUT {
                (Waiting::Reply { subcmd, reads: (reads + 1) as u32 }, WaitKind::Read)
            } else {
                (self, WaitKind::SubcmdTimeout)
            },
            Waiting::ReplyInMode { subcmd, mode, reads } => if is_reply_to(subcmd, report) {
                if !acked(report) {
                    (self, WaitKind::Nack)
                } else {
                    match reply_in_mode(report, mode) {
                        Some(true) => (self, WaitKind::Reply),
                        Some(false) => (
                            Waiting::ReplyInMode { subcmd, mode, reads: 0 },
                            WaitKind::Write(subcmd_report(subcmd)),
                        ),
                        None => (self, WaitKind::NoMcuStatus),
                    }
                }
            } else if reads + 1 < WAIT_TIMEOUT {
                (Waiting::ReplyInMode { subcmd, mode, reads: (reads + 1) as u32 }, WaitKind::Read)
            } else {
                (self, WaitKind::SubcmdTimeout)
            },
            Waiting::Mcu { request, cond, sends, reads } => if mcu_meets(report, cond) {
                (self, WaitKind::Mcu)
            } else if reads + 1 < WAIT_TIMEOUT {
                (Waiting::Mcu { request, cond, sends, reads: (reads + 1) as u32 }, WaitKind::Read)
            } else if sends < WAIT_TIMEOUT {
                (
                    Waiting::Mcu { request, cond, sends: (sends + 1) as u32, reads: 0 },
                    WaitKind::Write(mcu_request_report(request)),
                )
            } else {
                (self, WaitKind::McuTimeout)
            },
            Waiting::Report { cond } => if mcu_meets(report, cond) {
                (self, WaitKind::Mcu)
            } else {
                (self, WaitKind::Read)
            },
        }
    }
}

/// Whether the outcome `r`, given with the packet counter `counter`, is
/// what `k` says.
pub open spec fn outcome_is(r: WaitOutcome, k: WaitKind, counter: u8) -> bool {
    match k {
        WaitKind::Read => r is Read,
        WaitKind::Write(report) => r is Write && is_stamped(r->Write_0, report, counter),
        WaitKind::Reply => r is Reply,
        WaitKind::Mcu => r is Mcu,
        WaitKind::Nack => r is Nack,
        WaitKind::NoMcuStatus => r is NoMcuStatus,
        WaitKind::SubcmdTimeout => r is SubcmdTimeout,
        WaitKind::McuTimeout => r is McuTimeout,
    }
}

/// The wait after reading `reports` in turn from `w`, as long as each says
/// to read the next, and what the last one read leads to.
pub open spec fn run(w: Waiting, reports: Seq<InputReport>) -> (Waiting, WaitKind)
    decreases reports.len(),
{
    if reports.len() == 0 {
        (w, WaitKind::Read)
    } else {
        let last = run(w, reports.drop_last());
        if last.1 is Read {
            last.0.step(reports.last())
        } else {
            last
        }
    }
}

/// The wait for a reply reads at most its limit of reports: after `k` reports
/// that are not the reply it is still reading; the first reply, read
/// `k + 1`-th, ends it, acknowledged or refused; and when the report read
/// last of the limit is not the reply either, it gives up.
pub proof fn law_reply_wait(subcmd: SubcommandRequest, reports: Seq<InputReport>, k: int)
    requires
        0 <= k < WAIT_TIMEOUT,
        k < reports.len(),
        forall|i: int| 0 <= i < k ==> !is_reply_to(subcmd, #[trigger] reports[i]),
    ensures
        run(Waiting::Reply { subcmd, reads: 0 }, reports.take(k)) == (
            Waiting::Reply { subcmd, reads: k as u32 },
            WaitKind::Read,
        ),
        is_reply_to(subcmd, reports[k]) && acked(reports[k]) ==> run(
            Waiting::Reply { subcmd, reads: 0 },
            reports.take(k + 1),
        ).1 == WaitKind::Reply,
        is_reply_to(subcmd, reports[k]) && !acked(reports[k]) ==> run(
            Waiting::Reply { subcmd, reads: 0 },
            reports.take(k + 1),
        ).1 == WaitKind::Nack,
        !is_reply_to(subcmd, reports[k]) && k + 1 == WAIT_TIMEOUT ==> run(
            Waiting::Reply { subcmd, reads: 0 },
            reports.take(k + 1),
        ).1 == WaitKind::SubcmdTimeout,
    decreases k,
{
    let w = Waiting::Reply { subcmd, reads: 0 };
    assert(reports.take(k + 1).drop_last() =~= reports.take(k));
    assert(reports.take(k + 1).last() == reports[k]);
    if k > 0 {
        law_reply_wait(subcmd, reports, k - 1);
        assert(reports.take(k).drop_last() =~= reports.take(k - 1));
        assert(reports.take(k).last() == reports[k - 1]);
    } else {
        assert(reports.take(0) =~= Seq::<InputReport>::empty());
    }
}

/// A wait for an MCU report reads at most its limit of reports per request
/// sent: after `k` reports that do not meet the condition it is still
/// reading; the first that meets it, read `k + 1`-th, ends it; when the
/// report read last of the limit does not meet it either, the request is
/// sent again, or, once it was sent its limit of times, the wait gives up.
#[verifier::rlimit(60)]
pub proof fn law_mcu_wait(request: MCURequest, cond: McuCondition, sends: u32, reports: Seq<InputReport>, k: int)
    requires
        1 <= sends <= WAIT_TIMEOUT,
        0 <= k < WAIT_TIMEOUT,
        k < reports.len(),
        forall|i: int| 0 <= i < k ==> !mcu_meets(#[trigger] reports[i], cond),
    ensures
        run(Waiting::Mcu { request, cond, sends, reads: 0 }, reports.take(k)) == (
            Waiting::Mcu { request, cond, sends, reads: k as u32 },
            WaitKind::Read,
        ),
        mcu_meets(reports[k], cond) ==> run(
            Waiting::Mcu { request, cond, sends, reads: 0 },
            reports.take(k + 1),
        ).1 == WaitKind::Mcu,
        !mcu_meets(reports[k], cond) && k + 1 == WAIT_TIMEOUT && sends < WAIT_TIMEOUT ==> run(
            Waiting::Mcu { request, cond, sends, reads: 0 },
            reports.take(k + 1),
        ) == (
            Waiting::Mcu { request, cond, sends: (sends + 1) as u32, reads: 0 },
            WaitKind::Write(mcu_request_report(request)),
        ),
        !mcu_meets(reports[k], cond) && k + 1 == WAIT_TIMEOUT && sends == WAIT_TIMEOUT ==> run(
            Waiting::Mcu { request, cond, sends, reads: 0 },
            reports.take(k + 1),
        ).1 == WaitKind::McuTimeout,
    decreases k,
{
    let w = Waiting::Mcu { request, cond, sends, reads: 0 };
    assert(reports.take(k + 1).drop_last() =~= reports.take(k));
    assert(reports.take(k + 1).last() == reports[k]);
    if k > 0 {
        law_mcu_wait(request, cond, sends, reports, k - 1);
        assert(reports.take(k).drop_last() =~= reports.take(k - 1));
        assert(reports.take(k).last() == reports[k - 1]);
    } else {
        assert(reports.take(0) =~= Seq::<InputReport>::empty());
    }
    let before = Waiting::Mcu { request, cond, sends, reads: k as u32 };
    assert(run(w, reports.take(k)) == (before, WaitKind::Read));
    assert(run(w, reports.take(k + 1)) == before.step(reports[k]));
}

/// The report carrying `subcmd`, before it is stamped.
pub open spec fn subcmd_report(subcmd: SubcommandRequest) -> OutputReport {
    OutputReport::of(OutputReportId::RumbleAndSubcmd, RumbleData::idle(), subcmd.spec_bytes())
}

/// The report forwarding `request` to the MCU, before it is stamped.
pub open spec fn mcu_request_report(request: MCURequest) -> OutputReport {
    OutputReport::of(OutputReportId::RequestMCUData, RumbleData::idle(), request.spec_bytes())
}

/// `r` is `report` stamped with the packet counter `counter`.
pub open spec fn is_stamped(r: OutputReport, report: OutputReport, counter: u8) -> bool {
    r.id == report.id && r.raw@ == report.raw@.update(0, counter)
}

/// `rep` is the subcommand reply that `report` carries.
pub open spec fn carries_reply(report: InputReport, rep: SubcommandReply) -> bool {
    rep.ack.0 == report.raw[13] && rep.id.0 == report.raw[14] && rep.u@ == report.raw@.subrange(15, 362)
}

/// `m` is the MCU report that `report` carries.
pub open spec fn carries_mcu(report: InputReport, m: MCUReport) -> bool {
    m.id.0 == report.raw[49] && m.u@ == report.raw@.subrange(50, 362)
}

/// `report` carries an MCU report that meets `cond`.
pub open spec fn mcu_meets(report: InputReport, cond: McuCondition) -> bool {
    report.spec_id() == Some(InputReportId::StandardFullMCU) && cond.holds_on(
        report.raw[49],
        report.raw@.subrange(50, 362),
    )
}

/// The controller acknowledged the subcommand whose reply `report` carries.
pub open spec fn acked(report: InputReport) -> bool {
    report.raw[13] >= 0x80
}

/// For a report carrying the reply to a change of the MCU mode: whether its
/// status of the MCU is in `mode`; `None` when it carries no status.
pub open spec fn reply_in_mode(report: InputReport, mode: MCUMode) -> Option<bool> {
    if SubcommandId::spec_from_u8(report.raw[14]) == Some(SubcommandId::SetMCUConf) && MCUReportId::spec_from_u8(
        report.raw[15],
    ) == Some(MCUReportId::StateReport) {
        Some(MCUMode::spec_from_u8(report.raw[22]) == Some(mode))
    } else {
        None
    }
}

/// The driver is unchanged but for the packet counter, which moved on by
/// one modulo 16.
pub open spec fn stamped_one(a: JoyCon, b: JoyCon) -> bool {
    &&& b.counter == (a.counter + 1) % 16
    &&& b.enable_ir_loop == a.enable_ir_loop
    &&& same_settings(a, b)
}

impl JoyCon {
    /// Starts the wait for the reply to `subcmd`: the report to write,
    /// stamped, and the wait.
    pub fn call_subcmd_wait(&mut self, subcmd: SubcommandRequest) -> (r: (OutputReport, Waiting))
        ensures
            is_stamped(r.0, subcmd_report(subcmd), old(self).counter),
            r.1 == (Waiting::Reply { subcmd, reads: 0 }),
            stamped_one(*old(self), *final(self)),
    {
        let mut report = OutputReport::from(subcmd);
        self.send(&mut report);
        (report, Waiting::Reply { subcmd, reads: 0 })
    }

    /// Starts the wait for the reply to `subcmd` with the MCU in `mode`.
    pub fn call_subcmd_until_mode(&mut self, subcmd: SubcommandRequest, mode: MCUMode) -> (r: (
        OutputReport,
        Waiting,
    ))
        ensures
            is_stamped(r.0, subcmd_report(subcmd), old(self).counter),
            r.1 == (Waiting::ReplyInMode { subcmd, mode, reads: 0 }),
            stamped_one(*old(self), *final(self)),
    {
        let mut report = OutputReport::from(subcmd);
        self.send(&mut report);
        (report, Waiting::ReplyInMode { subcmd, mode, reads: 0 })
    }

    /// Starts sending `request` to the MCU until one of its reports meets
    /// `cond`: the first request to write, stamped, and the wait.
    pub fn wait_mcu_cond(&mut self, request: MCURequest, cond: McuCondition) -> (r: (OutputReport, Waiting))
        ensures
            is_stamped(r.0, mcu_request_report(request), old(self).counter),
            r.1 == (Waiting::Mcu { request, cond, sends: 1, reads: 0 }),
            stamped_one(*old(self), *final(self)),
    {
        let mut report = OutputReport::from(request);
        self.send(&mut report);
        (report, Waiting::Mcu { request, cond, sends: 1, reads: 0 })
    }

    /// What to do with `report`, read during `waiting`.
    pub fn on_report(&mut self, waiting: &mut Waiting, report: &InputReport) -> (r: WaitOutcome)
        requires
            old(waiting).wf(),
        ensures
            final(waiting).wf(),
            r is Write ==> stamped_one(*old(self), *final(self)),
            !(r is Write) ==> *final(self) == *old(self),
            r matches WaitOutcome::Reply(rep) ==> carries_reply(*report, rep),
            r matches WaitOutcome::Mcu(m) ==> carries_mcu(*report, m),
            *final(waiting) == old(waiting).step(*report).0,
            outcome_is(r, old(waiting).step(*report).1, old(self).counter),
    {
        match *waiting {
            Waiting::Reply { subcmd, reads } => match JoyCon::subcmd_reply_status(&subcmd, report) {
                ReplyStatus::Acked(rep) => WaitOutcome::Reply(rep),
                ReplyStatus::Nacked => WaitOutcome::Nack,
                ReplyStatus::Pending => {
                    if reads + 1 < WAIT_TIMEOUT {
                        *waiting = Waiting::Reply { subcmd, reads: reads + 1 };
                        WaitOutcome::Read
                    } else {
                        WaitOutcome::SubcmdTimeout
                    }
                },
            },
            Waiting::ReplyInMode { subcmd, mode, reads } => match JoyCon::subcmd_reply_status(&subcmd, report) {
                ReplyStatus::Acked(rep) => match JoyCon::mcu_mode_reached(&rep, mode) {
                    Some(true) => WaitOutcome::Reply(rep),
                    Some(false) => {
                        let mut again = OutputReport::from(subcmd);
                        self.send(&mut again);
                        *waiting = Waiting::ReplyInMode { subcmd, mode, reads: 0 };
                        WaitOutcome::Write(again)
                    },
                    None => WaitOutcome::NoMcuStatus,
                },
                ReplyStatus::Nacked => WaitOutcome::Nack,
                ReplyStatus::Pending => {
                    if reads + 1 < WAIT_TIMEOUT {
                        *waiting = Waiting::ReplyInMode { subcmd, mode, reads: reads + 1 };
                        WaitOutcome::Read
                    } else {
                        WaitOutcome::SubcmdTimeout
                    }
                },
            },
            Waiting::Mcu { request, cond, sends, reads } => {
                let met = match report.mcu_report() {
                    Some(m) => {
                        if cond.check(&m) {
                            Some(m)
                        } else {
                            None
                        }
                    },
                    None => None,
                };
                match met {
                    Some(m) => WaitOutcome::Mcu(m),
                    None => {
                        if reads + 1 < WAIT_TIMEOUT {
                            *waiting = Waiting::Mcu { request, cond, sends, reads: reads + 1 };
                            WaitOutcome::Read
                        } else if sends < WAIT_TIMEOUT {
                            let mut again = OutputReport::from(request);
                            self.send(&mut again);
                            *waiting = Waiting::Mcu { request, cond, sends: sends + 1, reads: 0 };
                            WaitOutcome::Write(again)
                        } else {
                            WaitOutcome::McuTimeout
                        }
                    },
                }
            },
            Waiting::Report { cond } => match report.mcu_report() {
                Some(m) => {
                    if cond.check(&m) {
                        WaitOutcome::Mcu(m)
                    } else {
                        WaitOutcome::Read
                    }
                },
                None => WaitOutcome::Read,
            },
        }
    }
}

} // verus!
