use vstd::prelude::*;
use crate::catalog::{whole_rate, Fraction};
use crate::fourcc::{format_of_code, fourcc_code, fourcc_to_frameformat, frameformat_to_fourcc};
use crate::request::{is_fulfillment, RequestedFormat};
use crate::text::{decimal, decimal_string, format_string, format_text, push_char, push_decimal, push_str, text};
use crate::types::{is_get_error, is_set_error, CameraFormat, FourCC, NokhwaError, Resolution};

verus! {

/// A device's active pixel layout and frame size, as the driver reports it.
#[derive(Clone, Copy, Debug)]
pub struct DeviceFormat {
    pub width: u32,
    pub height: u32,
    pub fourcc: FourCC,
}

/// Why applying a format failed.
#[derive(Debug)]
pub enum ApplyError {
    /// Reading the device's frame size and pixel layout failed.
    FormatQueryFailed(String),
    /// Reading the device's frame interval failed.
    RateQueryFailed(String),
    /// The device refused the new frame size and pixel layout.
    SetFormatFailed { attempted: CameraFormat, why: String },
    /// The device refused the new frame interval.
    SetRateFailed { fps: u32, why: String },
    /// The stream could not be reopened under the new format; the previous
    /// format and interval were restored and the stream reopened under them.
    ReopenFailed(String),
    /// After a failed reopen, writing the previous size and layout back failed.
    RestoreFormatFailed { reopen: String, previous: DeviceFormat, why: String },
    /// After a failed reopen, writing the previous interval back failed.
    RestoreRateFailed { reopen: String, previous: Fraction, why: String },
    /// After a failed reopen and a restore, reopening the stream failed again.
    RestoreStreamFailed { reopen: String, why: String },
    /// The device reports a pixel layout this library does not represent.
    UnsupportedFormat,
    /// The device reports a frame interval that is not a whole frame rate.
    FractionalRate(Fraction),
    /// The device accepted the writes but runs another format.
    Rejected { requested: CameraFormat, observed: CameraFormat },
    /// While a device was being opened, it accepted the writes but runs
    /// another format.
    NotSame { requested: CameraFormat, observed: CameraFormat },
    /// The format is not in the device's capability catalog.
    Unlisted(CameraFormat),
    /// The device answered with an event that does not fit the current step.
    UnexpectedEvent,
}

/// What the caller must do next on the device.
#[derive(Debug)]
pub enum DeviceAction {
    QueryFormat,
    QueryInterval,
    SetFormat(DeviceFormat),
    SetInterval(Fraction),
    /// Release the open stream's buffers, then open a new stream.
    ReopenStream,
    /// The operation is over; `Ok` holds the verified active format.
    Finish(Result<CameraFormat, ApplyError>),
}

/// The device's answer to the last action.
#[derive(Debug)]
pub enum DeviceEvent {
    Format(Result<DeviceFormat, String>),
    Interval(Result<Fraction, String>),
    Done(Result<(), String>),
}

#[derive(Clone, Copy, Debug, PartialEq, Eq, Structural)]
pub enum ApplyStage {
    ReadPrevFormat,
    ReadPrevRate,
    PushFormat,
    PushRate,
    Reopen,
    RestoreFormat,
    RestoreRate,
    ReopenPrevious,
    ReadBackFormat,
    ReadBackRate,
    Finished,
}

/// Applying one operating format to a device: push the frame size and
/// layout, then the frame interval; reopen an open stream, restoring the
/// previous configuration and stream if that fails; finally read the active
/// format back and accept only the requested one, and only if the device's
/// capability catalog lists it.
#[derive(Debug)]
pub struct FormatApply {
    pub target: CameraFormat,
    pub catalog: Vec<CameraFormat>,
    pub target_native: DeviceFormat,
    pub stream_open: bool,
    /// Whether this application opens the device: its read-back mismatch
    /// is then reported as `NotSame` rather than `Rejected`.
    pub opening: bool,
    pub stage: ApplyStage,
    pub prev_format: DeviceFormat,
    pub prev_interval: Fraction,
    pub observed: DeviceFormat,
    pub reopen_error: String,
}

/// The driver form of a format: its size and four-byte code.
pub open spec fn is_native_of(d: DeviceFormat, c: CameraFormat) -> bool {
    d.width == c.resolution.width_x && d.height == c.resolution.height_y && d.fourcc.repr@
        == fourcc_code(c.format)
}

/// The frame interval that asks for `fps` frames per second.
pub open spec fn interval_for(fps: u32) -> Fraction {
    Fraction { numerator: 1, denominator: fps }
}

/// The operating format a device reports, or why it cannot be represented.
pub open spec fn read_back(f: DeviceFormat, i: Fraction) -> Result<CameraFormat, ApplyError> {
    match format_of_code(f.fourcc.repr@) {
        None => Err(ApplyError::UnsupportedFormat),
        Some(ff) => match whole_rate(i.numerator, i.denominator) {
            None => Err(ApplyError::FractionalRate(i)),
            Some(fps) => Ok(
                CameraFormat {
                    resolution: Resolution { width_x: f.width, height_y: f.height },
                    format: ff,
                    frame_rate: fps,
                },
            ),
        },
    }
}

pub open spec fn finished(m: FormatApply, r: Result<CameraFormat, ApplyError>) -> (
    FormatApply,
    DeviceAction,
) {
    (FormatApply { stage: ApplyStage::Finished, ..m }, DeviceAction::Finish(r))
}

/// One transition: the next state and action after the device's answer.
pub open spec fn next(m: FormatApply, e: DeviceEvent) -> (FormatApply, DeviceAction) {
    match (m.stage, e) {
        (ApplyStage::ReadPrevFormat, DeviceEvent::Format(Ok(f))) => (
            FormatApply { stage: ApplyStage::ReadPrevRate, prev_format: f, ..m },
            DeviceAction::QueryInterval,
        ),
        (ApplyStage::ReadPrevFormat, DeviceEvent::Format(Err(w))) => finished(
            m,
            Err(ApplyError::FormatQueryFailed(w)),
        ),
        (ApplyStage::ReadPrevRate, DeviceEvent::Interval(Ok(i))) => (
            FormatApply { stage: ApplyStage::PushFormat, prev_interval: i, ..m },
            DeviceAction::SetFormat(m.target_native),
        ),
        (ApplyStage::ReadPrevRate, DeviceEvent::Interval(Err(w))) => finished(
            m,
            Err(ApplyError::RateQueryFailed(w)),
        ),
        (ApplyStage::PushFormat, DeviceEvent::Done(Ok(()))) => (
            FormatApply { stage: ApplyStage::PushRate, ..m },
            DeviceAction::SetInterval(interval_for(m.target.frame_rate)),
        ),
        (ApplyStage::PushFormat, DeviceEvent::Done(Err(w))) => finished(
            m,
            Err(ApplyError::SetFormatFailed { attempted: m.target, why: w }),
        ),
        (ApplyStage::PushRate, DeviceEvent::Done(Ok(()))) => if m.stream_open {
            (FormatApply { stage: ApplyStage::Reopen, ..m }, DeviceAction::ReopenStream)
        } else {
            (FormatApply { stage: ApplyStage::ReadBackFormat, ..m }, DeviceAction::QueryFormat)
        },
        (ApplyStage::PushRate, DeviceEvent::Done(Err(w))) => finished(
            m,
            Err(ApplyError::SetRateFailed { fps: m.target.frame_rate, why: w }),
        ),
        (ApplyStage::Reopen, DeviceEvent::Done(Ok(()))) => (
            FormatApply { stage: ApplyStage::ReadBackFormat, ..m },
            DeviceAction::QueryFormat,
        ),
        (ApplyStage::Reopen, DeviceEvent::Done(Err(w))) => (
            FormatApply { stage: ApplyStage::RestoreFormat, reopen_error: w, ..m },
            DeviceAction::SetFormat(m.prev_format),
        ),
        (ApplyStage::RestoreFormat, DeviceEvent::Done(Ok(()))) => (
            FormatApply { stage: ApplyStage::RestoreRate, ..m },
            DeviceAction::SetInterval(m.prev_interval),
        ),
        (ApplyStage::RestoreFormat, DeviceEvent::Done(Err(w))) => finished(
            m,
            Err(
                ApplyError::RestoreFormatFailed {
                    reopen: m.reopen_error,
                    previous: m.prev_format,
                    why: w,
                },
            ),
        ),
        (ApplyStage::RestoreRate, DeviceEvent::Done(Ok(()))) => (
            FormatApply { stage: ApplyStage::ReopenPrevious, ..m },
            DeviceAction::ReopenStream,
        ),
        (ApplyStage::RestoreRate, DeviceEvent::Done(Err(w))) => finished(
            m,
            Err(
                ApplyError::RestoreRateFailed {
                    reopen: m.reopen_error,
                    previous: m.prev_interval,
                    why: w,
                },
            ),
        ),
        (ApplyStage::ReopenPrevious, DeviceEvent::Done(Ok(()))) => finished(
            m,
            Err(ApplyError::ReopenFailed(m.reopen_error)),
        ),
        (ApplyStage::ReopenPrevious, DeviceEvent::Done(Err(w))) => finished(
            m,
            Err(ApplyError::RestoreStreamFailed { reopen: m.reopen_error, why: w }),
        ),
        (ApplyStage::ReadBackFormat, DeviceEvent::Format(Ok(f))) => (
            FormatApply { stage: ApplyStage::ReadBackRate, observed: f, ..m },
            DeviceAction::QueryInterval,
        ),
        (ApplyStage::ReadBackFormat, DeviceEvent::Format(Err(w))) => finished(
            m,
            Err(ApplyError::FormatQueryFailed(w)),
        ),
        (ApplyStage::ReadBackRate, DeviceEvent::Interval(Ok(i))) => match read_back(
            m.observed,
            i,
        ) {
            Ok(c) => if c != m.target {
                if m.opening {
                    finished(m, Err(ApplyError::NotSame { requested: m.target, observed: c }))
                } else {
                    finished(m, Err(ApplyError::Rejected { requested: m.target, observed: c }))
                }
            } else if !m.catalog@.contains(c) {
                finished(m, Err(ApplyError::Unlisted(c)))
            } else {
                finished(m, Ok(c))
            },
            Err(x) => finished(m, Err(x)),
        },
        (ApplyStage::ReadBackRate, DeviceEvent::Interval(Err(w))) => finished(
            m,
            Err(ApplyError::RateQueryFailed(w)),
        ),
        _ => finished(m, Err(ApplyError::UnexpectedEvent)),
    }
}

/// The driver form of an operating format.
pub fn native_format(c: CameraFormat) -> (r: DeviceFormat)
    ensures
        is_native_of(r, c),
{
    DeviceFormat {
        width: c.resolution.width_x,
        height: c.resolution.height_y,
        fourcc: frameformat_to_fourcc(c.format),
    }
}

/// Reads an operating format back from what the device reports.
pub fn format_from_device(f: DeviceFormat, i: Fraction) -> (r: Result<CameraFormat, ApplyError>)
    ensures
        r == read_back(f, i),
{
    match fourcc_to_frameformat(f.fourcc) {
        None => Err(ApplyError::UnsupportedFormat),
        Some(ff) => {
            if i.numerator > 0 && i.denominator % i.numerator == 0 {
                Ok(
                    CameraFormat {
                        resolution: Resolution { width_x: f.width, height_y: f.height },
                        format: ff,
                        frame_rate: i.denominator / i.numerator,
                    },
                )
            } else {
                Err(ApplyError::FractionalRate(i))
            }
        },
    }
}

fn lists(catalog: &Vec<CameraFormat>, c: CameraFormat) -> (r: bool)
    ensures
        r == catalog@.contains(c),
{
    let mut i: usize = 0;
    while i < catalog.len()
        invariant
            i <= catalog@.len(),
            forall|k: int| 0 <= k < i ==> catalog@[k] != c,
        decreases catalog@.len() - i,
    {
        if catalog[i] == c {
            assert(catalog@[i as int] == c);
            return true;
        }
        i += 1;
    }
    false
}

impl FormatApply {
    fn begin(target: CameraFormat, stream_open: bool, opening: bool, catalog: Vec<CameraFormat>) -> (r: (
        FormatApply,
        DeviceAction,
    ))
        ensures
            r.0.target == target,
            r.0.catalog@ == catalog@,
            is_native_of(r.0.target_native, target),
            r.0.stream_open == stream_open,
            r.0.opening == opening,
            catalog@.contains(target) ==> r.0.stage == ApplyStage::ReadPrevFormat
                && r.1 is QueryFormat,
            !catalog@.contains(target) ==> r.0.stage == ApplyStage::Finished && r.1
                == DeviceAction::Finish(Err(ApplyError::Unlisted(target))),
    {
        let target_native = native_format(target);
        let listed = lists(&catalog, target);
        let m = FormatApply {
            target,
            catalog,
            target_native,
            stream_open,
            opening,
            stage: if listed {
                ApplyStage::ReadPrevFormat
            } else {
                ApplyStage::Finished
            },
            prev_format: target_native,
            prev_interval: Fraction { numerator: 0, denominator: 0 },
            observed: target_native,
            reopen_error: String::new(),
        };
        if listed {
            (m, DeviceAction::QueryFormat)
        } else {
            (m, DeviceAction::Finish(Err(ApplyError::Unlisted(target))))
        }
    }

    /// Begins applying `target` to an open device; `stream_open` tells
    /// whether a stream must be reopened under it. A target the catalog does
    /// not list fails at once, before anything is written; otherwise the
    /// first action reads the current format.
    pub fn start(target: CameraFormat, stream_open: bool, catalog: Vec<CameraFormat>) -> (r: (
        FormatApply,
        DeviceAction,
    ))
        ensures
            r.0.target == target,
            r.0.catalog@ == catalog@,
            is_native_of(r.0.target_native, target),
            r.0.stream_open == stream_open,
            !r.0.opening,
            catalog@.contains(target) ==> r.0.stage == ApplyStage::ReadPrevFormat
                && r.1 is QueryFormat,
            !catalog@.contains(target) ==> r.0.stage == ApplyStage::Finished && r.1
                == DeviceAction::Finish(Err(ApplyError::Unlisted(target))),
    {
        FormatApply::begin(target, stream_open, false, catalog)
    }

    /// Begins configuring a device that is being opened, with no stream yet.
    /// It runs as `start` does; a read-back mismatch is reported as
    /// `NotSame`.
    pub fn open(target: CameraFormat, catalog: Vec<CameraFormat>) -> (r: (FormatApply, DeviceAction))
        ensures
            r.0.target == target,
            r.0.catalog@ == catalog@,
            is_native_of(r.0.target_native, target),
            !r.0.stream_open,
            r.0.opening,
            catalog@.contains(target) ==> r.0.stage == ApplyStage::ReadPrevFormat
                && r.1 is QueryFormat,
            !catalog@.contains(target) ==> r.0.stage == ApplyStage::Finished && r.1
                == DeviceAction::Finish(Err(ApplyError::Unlisted(target))),
    {
        FormatApply::begin(target, false, true, catalog)
    }

    fn finish(&mut self, r: Result<CameraFormat, ApplyError>) -> (a: DeviceAction)
        ensures
            (*final(self), a) == finished(*old(self), r),
    {
        self.stage = ApplyStage::Finished;
        DeviceAction::Finish(r)
    }

    /// Advances by the device's answer to the last action.
    pub fn step(&mut self, e: DeviceEvent) -> (a: DeviceAction)
        ensures
            (*final(self), a) == next(*old(self), e),
    {
        match (self.stage, e) {
            (ApplyStage::ReadPrevFormat, DeviceEvent::Format(Ok(f))) => {
                self.stage = ApplyStage::ReadPrevRate;
                self.prev_format = f;
                DeviceAction::QueryInterval
            },
            (ApplyStage::ReadPrevRate, DeviceEvent::Interval(Ok(i))) => {
                self.stage = ApplyStage::PushFormat;
                self.prev_interval = i;
                DeviceAction::SetFormat(self.target_native)
            },
            (ApplyStage::PushFormat, DeviceEvent::Done(Ok(()))) => {
                self.stage = ApplyStage::PushRate;
                DeviceAction::SetInterval(Fraction { numerator: 1, denominator: self.target.frame_rate })
            },
            (ApplyStage::PushFormat, DeviceEvent::Done(Err(w))) => {
                let attempted = self.target;
                self.finish(Err(ApplyError::SetFormatFailed { attempted, why: w }))
            },
            (ApplyStage::PushRate, DeviceEvent::Done(Ok(()))) => {
                if self.stream_open {
                    self.stage = ApplyStage::Reopen;
                    DeviceAction::ReopenStream
                } else {
                    self.stage = ApplyStage::ReadBackFormat;
                    DeviceAction::QueryFormat
                }
            },
            (ApplyStage::PushRate, DeviceEvent::Done(Err(w))) => {
                let fps = self.target.frame_rate;
                self.finish(Err(ApplyError::SetRateFailed { fps, why: w }))
            },
            (ApplyStage::Reopen, DeviceEvent::Done(Ok(()))) => {
                self.stage = ApplyStage::ReadBackFormat;
                DeviceAction::QueryFormat
            },
            (ApplyStage::Reopen, DeviceEvent::Done(Err(w))) => {
                self.stage = ApplyStage::RestoreFormat;
                self.reopen_error = w;
                DeviceAction::SetFormat(self.prev_format)
            },
            (ApplyStage::RestoreFormat, DeviceEvent::Done(Ok(()))) => {
                self.stage = ApplyStage::RestoreRate;
                DeviceAction::SetInterval(self.prev_interval)
            },
            (ApplyStage::RestoreFormat, DeviceEvent::Done(Err(w))) => {
                let reopen = self.reopen_error.clone();
                let previous = self.prev_format;
                self.finish(Err(ApplyError::RestoreFormatFailed { reopen, previous, why: w }))
            },
            (ApplyStage::RestoreRate, DeviceEvent::Done(Ok(()))) => {
                self.stage = ApplyStage::ReopenPrevious;
                DeviceAction::ReopenStream
            },
            (ApplyStage::RestoreRate, DeviceEvent::Done(Err(w))) => {
                let reopen = self.reopen_error.clone();
                let previous = self.prev_interval;
                self.finish(Err(ApplyError::RestoreRateFailed { reopen, previous, why: w }))
            },
            (ApplyStage::ReopenPrevious, DeviceEvent::Done(Ok(()))) => {
                let reopen = self.reopen_error.clone();
                self.finish(Err(ApplyError::ReopenFailed(reopen)))
            },
            (ApplyStage::ReopenPrevious, DeviceEvent::Done(Err(w))) => {
                let reopen = self.reopen_error.clone();
                self.finish(Err(ApplyError::RestoreStreamFailed { reopen, why: w }))
            },
            (ApplyStage::ReadBackFormat, DeviceEvent::Format(Ok(f))) => {
                self.stage = ApplyStage::ReadBackRate;
                self.observed = f;
                DeviceAction::QueryInterval
            },
            (ApplyStage::ReadPrevFormat, DeviceEvent::Format(Err(w)))
            | (ApplyStage::ReadBackFormat, DeviceEvent::Format(Err(w))) => self.finish(
                Err(ApplyError::FormatQueryFailed(w)),
            ),
            (ApplyStage::ReadPrevRate, DeviceEvent::Interval(Err(w)))
            | (ApplyStage::ReadBackRate, DeviceEvent::Interval(Err(w))) => self.finish(
                Err(ApplyError::RateQueryFailed(w)),
            ),
            (ApplyStage::ReadBackRate, DeviceEvent::Interval(Ok(i))) => {
                match format_from_device(self.observed, i) {
                    Ok(c) => {
                        if c != self.target {
                            let requested = self.target;
                            if self.opening {
                                self.finish(Err(ApplyError::NotSame { requested, observed: c }))
                            } else {
                                self.finish(Err(ApplyError::Rejected { requested, observed: c }))
                            }
                        } else if !lists(&self.catalog, c) {
                            self.finish(Err(ApplyError::Unlisted(c)))
                        } else {
                            self.finish(Ok(c))
                        }
                    },
                    Err(x) => self.finish(Err(x)),
                }
            },
            _ => self.finish(Err(ApplyError::UnexpectedEvent)),
        }
    }
}

/// Only the final read-back ends an application with success, and only
/// with the requested format, which the catalog lists.
pub proof fn lemma_success_only_after_read_back(m: FormatApply, e: DeviceEvent)
    ensures
        next(m, e).1 is Finish && next(m, e).1->Finish_0 is Ok ==> m.stage == ApplyStage::ReadBackRate
            && next(m, e).1->Finish_0->Ok_0 == m.target && m.catalog@.contains(m.target),
{
}

/// A read-back that differs from the target ends the application with
/// `NotSame` while the device is being opened, and with `Rejected` after.
pub proof fn lemma_read_back_mismatch_kind(m: FormatApply, i: Fraction)
    requires
        m.stage == ApplyStage::ReadBackRate,
        read_back(m.observed, i) is Ok,
        read_back(m.observed, i)->Ok_0 != m.target,
    ensures
        m.opening ==> next(m, DeviceEvent::Interval(Ok(i))).1 == DeviceAction::Finish(
            Err(
                ApplyError::NotSame { requested: m.target, observed: read_back(m.observed, i)->Ok_0 },
            ),
        ),
        !m.opening ==> next(m, DeviceEvent::Interval(Ok(i))).1 == DeviceAction::Finish(
            Err(
                ApplyError::Rejected { requested: m.target, observed: read_back(m.observed, i)->Ok_0 },
            ),
        ),
{
}

/// A model device for stating what an application does end to end. It
/// accepts every write, except that it may run `coerce_to` instead of the
/// size and layout it was given and `coerce_rate` instead of the interval,
/// may fail to reopen its stream once, and may refuse the writes that
/// follow a failed reopen.
pub struct SimDevice {
    pub format: DeviceFormat,
    pub interval: Fraction,
    pub coerce_to: Option<DeviceFormat>,
    pub coerce_rate: Option<Fraction>,
    pub reopen_fails: bool,
    pub restore_fails: bool,
    pub reopen_failed: bool,
}

/// The model device's answer to an action; `msg` is its error text.
pub open spec fn respond(d: SimDevice, a: DeviceAction, msg: String) -> (SimDevice, DeviceEvent) {
    match a {
        DeviceAction::QueryFormat => (d, DeviceEvent::Format(Ok(d.format))),
        DeviceAction::QueryInterval => (d, DeviceEvent::Interval(Ok(d.interval))),
        DeviceAction::SetFormat(f) => if d.reopen_failed && d.restore_fails {
            (d, DeviceEvent::Done(Err(msg)))
        } else {
            (
                SimDevice {
                    format: match d.coerce_to {
                        Some(c) => c,
                        None => f,
                    },
                    ..d
                },
                DeviceEvent::Done(Ok(())),
            )
        },
        DeviceAction::SetInterval(i) => if d.reopen_failed && d.restore_fails {
            (d, DeviceEvent::Done(Err(msg)))
        } else {
            (
                SimDevice {
                    interval: match d.coerce_rate {
                        Some(q) => q,
                        None => i,
                    },
                    ..d
                },
                DeviceEvent::Done(Ok(())),
            )
        },
        DeviceAction::ReopenStream => if d.reopen_fails && !d.reopen_failed {
            (SimDevice { reopen_failed: true, ..d }, DeviceEvent::Done(Err(msg)))
        } else {
            (d, DeviceEvent::Done(Ok(())))
        },
        DeviceAction::Finish(_) => (d, DeviceEvent::Done(Ok(()))),
    }
}

/// Drives an application against the model device for at most `fuel` steps.
pub open spec fn run(m: FormatApply, a: DeviceAction, d: SimDevice, msg: String, fuel: nat) -> (
    FormatApply,
    DeviceAction,
    SimDevice,
)
    decreases fuel,
{
    if fuel == 0 || a is Finish {
        (m, a, d)
    } else {
        let (d2, e) = respond(d, a, msg);
        let (m2, a2) = next(m, e);
        run(m2, a2, d2, msg, (fuel - 1) as nat)
    }
}

/// A freshly started application of a listed target.
pub open spec fn fresh(m: FormatApply) -> bool {
    &&& m.stage == ApplyStage::ReadPrevFormat
    &&& is_native_of(m.target_native, m.target)
}

/// Read-back verification: a device that accepts every write but runs a
/// frame size or layout other than the requested one makes the application
/// fail; it never reports success.
pub proof fn lemma_coerced_format_is_rejected(m: FormatApply, d: SimDevice, x: DeviceFormat, msg: String)
    requires
        fresh(m),
        d.coerce_to == Some(x),
        !is_native_of(x, m.target),
        !d.reopen_failed,
    ensures
        run(m, DeviceAction::QueryFormat, d, msg, 12).1 is Finish,
        run(m, DeviceAction::QueryFormat, d, msg, 12).1->Finish_0 is Err,
{
    reveal_with_fuel(run, 12);
    let q = match d.coerce_rate {
        Some(q) => q,
        None => interval_for(m.target.frame_rate),
    };
    let rb = read_back(x, q);
    if rb is Ok && rb->Ok_0 == m.target {
        let ff = format_of_code(x.fourcc.repr@)->Some_0;
        assert(format_of_code(x.fourcc.repr@) == Some(ff));
        assert(x.fourcc.repr@ == fourcc_code(ff));
        assert(false);
    }
}

/// Read-back verification of the rate: a device that takes the size and
/// layout but runs an interval that is not the requested whole rate makes
/// the application fail.
pub proof fn lemma_coerced_rate_is_rejected(m: FormatApply, d: SimDevice, q: Fraction, msg: String)
    requires
        fresh(m),
        d.coerce_to is None,
        d.coerce_rate == Some(q),
        whole_rate(q.numerator, q.denominator) != Some(m.target.frame_rate),
        !d.reopen_failed,
    ensures
        run(m, DeviceAction::QueryFormat, d, msg, 12).1 is Finish,
        run(m, DeviceAction::QueryFormat, d, msg, 12).1->Finish_0 is Err,
{
    reveal_with_fuel(run, 12);
}

/// Rollback: when the device takes the new format but cannot reopen the
/// stream under it, the application fails, the device is left with its
/// previous format and frame interval, and the stream is reopened under
/// them; when writing them back fails, the failure is reported as a failed
/// restore.
pub proof fn lemma_failed_reopen_rolls_back(m: FormatApply, d: SimDevice, msg: String)
    requires
        fresh(m),
        m.stream_open,
        d.coerce_to is None,
        d.coerce_rate is None,
        d.reopen_fails,
        !d.reopen_failed,
    ensures
        ({
            let (m2, a, d2) = run(m, DeviceAction::QueryFormat, d, msg, 12);
            &&& a is Finish
            &&& !d.restore_fails ==> a->Finish_0 is Err && a->Finish_0->Err_0 is ReopenFailed
                && d2.format == d.format && d2.interval == d.interval
            &&& d.restore_fails ==> a->Finish_0 is Err && a->Finish_0->Err_0 is RestoreFormatFailed
                && a->Finish_0->Err_0->RestoreFormatFailed_previous == d.format
        }),
{
    reveal_with_fuel(run, 12);
}

/// The message label of a failed undo step: it names the undo attempt and
/// the reopen failure that caused it.
pub open spec fn undo_label(reopen: Seq<char>, what: Seq<char>) -> Seq<char> {
    "Attempt undo due to stream acquisition failure with error "@ + reopen + ". "@ + what
}

/// How a driver format is written in messages, e.g. `640x480 YUYV`.
pub open spec fn device_format_text(f: DeviceFormat) -> Seq<char> {
    decimal(f.width as nat) + "x"@ + decimal(f.height as nat) + " "@ + f.fourcc.repr@.map_values(
        |b: u8| b as char,
    )
}

/// How a frame interval is written in messages, e.g. `1/30`.
pub open spec fn fraction_text(f: Fraction) -> Seq<char> {
    decimal(f.numerator as nat) + "/"@ + decimal(f.denominator as nat)
}

fn undo_string(reopen: &String, what: &str) -> (r: String)
    ensures
        r@ == undo_label(reopen@, what@),
{
    let mut s = text("Attempt undo due to stream acquisition failure with error ");
    push_str(&mut s, reopen.as_str());
    push_str(&mut s, ". ");
    push_str(&mut s, what);
    s
}

fn device_format_string(f: DeviceFormat) -> (r: String)
    ensures
        r@ == device_format_text(f),
{
    let mut s = decimal_string(f.width as u128);
    push_str(&mut s, "x");
    push_decimal(&mut s, f.height as u128);
    push_str(&mut s, " ");
    let ghost base = s@;
    let mut i: usize = 0;
    while i < 4
        invariant
            i <= 4,
            s@ == base + f.fourcc.repr@.subrange(0, i as int).map_values(|b: u8| b as char),
        decreases 4 - i,
    {
        push_char(&mut s, f.fourcc.repr[i] as char);
        i += 1;
        assert(f.fourcc.repr@.subrange(0, i as int).map_values(|b: u8| b as char) =~= f.fourcc.repr@.subrange(0, i - 1).map_values(|b: u8| b as char).push(f.fourcc.repr@[i - 1] as char));
        assert(s@ =~= base + f.fourcc.repr@.subrange(0, i as int).map_values(|b: u8| b as char));
    }
    assert(f.fourcc.repr@.subrange(0, 4) =~= f.fourcc.repr@);
    s
}

fn fraction_string(f: Fraction) -> (r: String)
    ensures
        r@ == fraction_text(f),
{
    let mut s = decimal_string(f.numerator as u128);
    push_str(&mut s, "/");
    push_decimal(&mut s, f.denominator as u128);
    s
}

/// The library error an application failure is reported as.
pub fn apply_error_to_nokhwa(e: ApplyError) -> (r: NokhwaError)
    ensures
        match e {
            ApplyError::FormatQueryFailed(w) => is_get_error(r, "Resolution, FrameFormat"@, w@),
            ApplyError::RateQueryFailed(w) => is_get_error(r, "Frame rate"@, w@),
            ApplyError::SetFormatFailed { attempted, why } => is_set_error(
                r,
                "Resolution, FrameFormat"@,
                format_text(attempted),
                why@,
            ),
            ApplyError::SetRateFailed { fps, why } => is_set_error(
                r,
                "Frame rate"@,
                decimal(fps as nat),
                why@,
            ),
            ApplyError::ReopenFailed(w) => r == NokhwaError::OpenStreamError(w),
            ApplyError::RestoreFormatFailed { reopen, previous, why } => is_set_error(
                r,
                undo_label(reopen@, "Resolution, FrameFormat"@),
                device_format_text(previous),
                why@,
            ),
            ApplyError::RestoreRateFailed { reopen, previous, why } => is_set_error(
                r,
                undo_label(reopen@, "Frame rate"@),
                fraction_text(previous),
                why@,
            ),
            ApplyError::RestoreStreamFailed { reopen, why } => is_set_error(
                r,
                undo_label(reopen@, "Stream"@),
                Seq::empty(),
                why@,
            ),
            ApplyError::UnsupportedFormat => is_get_error(r, "FrameFormat"@, "unsupported"@),
            ApplyError::FractionalRate(_) => is_get_error(
                r,
                "V4L2 FrameRate"@,
                "Framerate not whole number"@,
            ),
            ApplyError::Rejected { requested, .. } => is_set_error(
                r,
                "CameraFormat"@,
                format_text(requested),
                "Rejected"@,
            ),
            ApplyError::NotSame { requested, .. } => is_set_error(
                r,
                "CameraFormat"@,
                format_text(requested),
                "Not same/Rejected"@,
            ),
            ApplyError::Unlisted(c) => is_set_error(
                r,
                "CameraFormat"@,
                format_text(c),
                "Not in the capability catalog"@,
            ),
            ApplyError::UnexpectedEvent => is_get_error(r, "device"@, "unexpected answer"@),
        },
{
    match e {
        ApplyError::FormatQueryFailed(w) => NokhwaError::GetPropertyError {
            property: text("Resolution, FrameFormat"),
            error: w,
        },
        ApplyError::RateQueryFailed(w) => NokhwaError::GetPropertyError {
            property: text("Frame rate"),
            error: w,
        },
        ApplyError::SetFormatFailed { attempted, why } => NokhwaError::SetPropertyError {
            property: text("Resolution, FrameFormat"),
            value: format_string(attempted),
            error: why,
        },
        ApplyError::SetRateFailed { fps, why } => NokhwaError::SetPropertyError {
            property: text("Frame rate"),
            value: decimal_string(fps as u128),
            error: why,
        },
        ApplyError::ReopenFailed(w) => NokhwaError::OpenStreamError(w),
        ApplyError::RestoreFormatFailed { reopen, previous, why } => NokhwaError::SetPropertyError {
            property: undo_string(&reopen, "Resolution, FrameFormat"),
            value: device_format_string(previous),
            error: why,
        },
        ApplyError::RestoreRateFailed { reopen, previous, why } => NokhwaError::SetPropertyError {
            property: undo_string(&reopen, "Frame rate"),
            value: fraction_string(previous),
            error: why,
        },
        ApplyError::RestoreStreamFailed { reopen, why } => NokhwaError::SetPropertyError {
            property: undo_string(&reopen, "Stream"),
            value: String::new(),
            error: why,
        },
        ApplyError::UnsupportedFormat => NokhwaError::GetPropertyError {
            property: text("FrameFormat"),
            error: text("unsupported"),
        },
        ApplyError::FractionalRate(_) => NokhwaError::GetPropertyError {
            property: text("V4L2 FrameRate"),
            error: text("Framerate not whole number"),
        },
        ApplyError::Rejected { requested, .. } => NokhwaError::SetPropertyError {
            property: text("CameraFormat"),
            value: format_string(requested),
            error: text("Rejected"),
        },
        ApplyError::NotSame { requested, .. } => NokhwaError::SetPropertyError {
            property: text("CameraFormat"),
            value: format_string(requested),
            error: text("Not same/Rejected"),
        },
        ApplyError::Unlisted(c) => NokhwaError::SetPropertyError {
            property: text("CameraFormat"),
            value: format_string(c),
            error: text("Not in the capability catalog"),
        },
        ApplyError::UnexpectedEvent => NokhwaError::GetPropertyError {
            property: text("device"),
            error: text("unexpected answer"),
        },
    }
}

/// Chooses the operating format to open a device with: the answer to the
/// request over the catalog, or an error when no entry is eligible.
pub fn select_format(req: &RequestedFormat, catalog: &Vec<CameraFormat>) -> (r: Result<
    CameraFormat,
    NokhwaError,
>)
    ensures
        r is Ok ==> is_fulfillment(*req, catalog@, Some(r->Ok_0)),
        r is Err ==> is_fulfillment(*req, catalog@, None) && is_get_error(
            r->Err_0,
            "CameraFormat"@,
            "Failed to Fufill"@,
        ),
{
    match req.fulfill(catalog) {
        Some(f) => Ok(f),
        None => Err(
            NokhwaError::GetPropertyError {
                property: text("CameraFormat"),
                error: text("Failed to Fufill"),
            },
        ),
    }
}

} // verus!
