//! Reports and their framing in caller buffers.
//!
//! A report in a buffer is its id byte followed by its payload bytes. A
//! report with an empty payload is valid and takes one byte.

use vstd::prelude::*;
use crate::error::HidError;
use crate::error::HidErrorView;
use crate::error::HidResult;
use crate::error::unit_result_view;

verus! {

/// One report: the id that names its format, and its payload.
#[derive(Debug, Clone, PartialEq, Eq)]
pub struct Report {
    pub report_id: u8,
    pub payload: Vec<u8>,
}

/// The mathematical value of a [`Report`].
pub struct ReportView {
    pub report_id: u8,
    pub payload: Seq<u8>,
}

impl View for Report {
    type V = ReportView;

    open spec fn view(&self) -> ReportView {
        ReportView { report_id: self.report_id, payload: self.payload@ }
    }
}

/// The view of a report that may be missing.
pub open spec fn incoming_view(incoming: Option<Report>) -> Option<ReportView> {
    match incoming {
        Some(report) => Some(report@),
        None => None,
    }
}

/// The bytes of `report` in a buffer: its id, then its payload.
pub open spec fn framed(report: ReportView) -> Seq<u8> {
    seq![report.report_id] + report.payload
}

/// What a read leaves behind: its result and the bytes of the destination
/// buffer.
pub struct ReadOutcome {
    pub result: Result<int, HidErrorView>,
    pub buffer: Seq<u8>,
}

/// The outcome of a read into a destination that holds `buffer`, where
/// `incoming` is the oldest pending report, or `None` where the source of
/// reports is closed.
///
/// An empty destination is refused and nothing else is looked at. A report
/// that fits is written at the start of the destination and the bytes behind
/// it stay; the result is the number of bytes written. Of a report that does
/// not fit only the id is written.
pub open spec fn read_outcome(buffer: Seq<u8>, incoming: Option<ReportView>) -> ReadOutcome {
    if buffer.len() == 0 {
        ReadOutcome { result: Err(HidErrorView::ZeroSizedBuffer), buffer }
    } else {
        match incoming {
            None => ReadOutcome { result: Err(HidErrorView::ChannelClosed), buffer },
            Some(report) => if 1 + report.payload.len() <= buffer.len() {
                ReadOutcome {
                    result: Ok(1 + report.payload.len() as int),
                    buffer: framed(report) + buffer.skip(1 + report.payload.len() as int),
                }
            } else {
                ReadOutcome {
                    result: Err(HidErrorView::BufferOverflow),
                    buffer: buffer.update(0, report.report_id),
                }
            },
        }
    }
}

/// The mathematical value of the result of a read.
pub open spec fn read_result_view(result: HidResult<usize>) -> Result<int, HidErrorView> {
    match result {
        Ok(written) => Ok(written as int),
        Err(error) => Err(error@),
    }
}

/// The report that a caller submits in `buffer`: the first byte is its id,
/// the bytes behind it are its payload. An empty buffer holds no report.
pub open spec fn output_report(buffer: Seq<u8>) -> Result<ReportView, HidErrorView> {
    if buffer.len() == 0 {
        Err(HidErrorView::ZeroSizedBuffer)
    } else {
        Ok(ReportView { report_id: buffer[0], payload: buffer.skip(1) })
    }
}

/// The mathematical value of the result of taking a report out of a buffer.
pub open spec fn report_result_view(result: HidResult<Report>) -> Result<ReportView, HidErrorView> {
    match result {
        Ok(report) => Ok(report@),
        Err(error) => Err(error@),
    }
}

/// Refuses a report buffer of length zero.
pub fn check_buffer(buffer: &[u8]) -> (verdict: HidResult<()>)
    ensures
        unit_result_view(verdict) == if buffer@.len() == 0 {
            Err::<(), HidErrorView>(HidErrorView::ZeroSizedBuffer)
        } else {
            Ok(())
        },
{
    if buffer.len() == 0 {
        Err(HidError::zero_sized_data())
    } else {
        Ok(())
    }
}

/// Writes the report `incoming` into `buffer` and returns the number of
/// bytes written; `incoming` is `None` where the source of reports is closed.
pub fn deliver_report(buffer: &mut [u8], incoming: Option<Report>) -> (outcome: HidResult<usize>)
    ensures
        read_outcome(old(buffer)@, incoming_view(incoming)) == (ReadOutcome {
            result: read_result_view(outcome),
            buffer: final(buffer)@,
        }),
        outcome matches Ok(written) ==> {
            &&& incoming is Some
            &&& written == 1 + incoming->0.payload@.len()
            &&& final(buffer)@[0] == incoming->0.report_id
            &&& final(buffer)@.subrange(1, written as int) == incoming->0.payload@
            &&& final(buffer)@.skip(written as int) == old(buffer)@.skip(written as int)
        },
{
    if buffer.len() == 0 {
        return Err(HidError::zero_sized_data());
    }
    match incoming {
        None => Err(HidError::ChannelClosed),
        Some(report) => {
            buffer[0] = report.report_id;
            let count = report.payload.len();
            if count == 0 {
                assert(buffer@ =~= framed(report@) + old(buffer)@.skip(1));
                assert(buffer@.subrange(1, 1) =~= report.payload@);
                assert(buffer@.skip(1) =~= old(buffer)@.skip(1));
                return Ok(1);
            }
            if count > buffer.len() - 1 {
                return Err(HidError::BufferOverflow);
            }
            let mut i: usize = 0;
            while i < count
                invariant
                    i <= count,
                    count == report.payload@.len(),
                    count < buffer@.len(),
                    buffer@.len() == old(buffer)@.len(),
                    buffer@[0] == report.report_id,
                    buffer@.subrange(1, 1 + i) == report.payload@.take(i as int),
                    buffer@.skip(1 + i) == old(buffer)@.skip(1 + i),
                decreases count - i,
            {
                let ghost before = buffer@;
                buffer[i + 1] = report.payload[i];
                proof {
                    assert(buffer@.subrange(1, 2 + i) =~= before.subrange(1, 1 + i).push(
                        report.payload@[i as int],
                    ));
                    assert(report.payload@.take(i + 1) =~= report.payload@.take(i as int).push(
                        report.payload@[i as int],
                    ));
                    assert(buffer@.skip(2 + i) =~= before.skip(1 + i).skip(1));
                    assert(old(buffer)@.skip(2 + i) =~= old(buffer)@.skip(1 + i).skip(1));
                }
                i += 1;
            }
            proof {
                assert(report.payload@.take(count as int) =~= report.payload@);
                assert(buffer@ =~= seq![buffer@[0]] + buffer@.subrange(1, 1 + count)
                    + buffer@.skip(1 + count));
            }
            Ok(1 + count)
        },
    }
}

/// Takes the report that a caller submits in `buffer`: the first byte as its
/// id, the bytes behind it as its payload.
pub fn split_output_report(buffer: &[u8]) -> (taken: HidResult<Report>)
    ensures
        report_result_view(taken) == output_report(buffer@),
{
    if buffer.len() == 0 {
        return Err(HidError::zero_sized_data());
    }
    let mut payload: Vec<u8> = Vec::new();
    let mut i: usize = 1;
    while i < buffer.len()
        invariant
            1 <= i <= buffer@.len(),
            payload@ == buffer@.subrange(1, i as int),
        decreases buffer@.len() - i,
    {
        payload.push(buffer[i]);
        assert(payload@ =~= buffer@.subrange(1, i + 1));
        i += 1;
    }
    assert(payload@ =~= buffer@.skip(1));
    Ok(Report { report_id: buffer[0], payload })
}

/// A report that is taken out of a buffer holds all of the buffer: framing it
/// again gives the buffer back. A buffer of one byte holds a report with an
/// empty payload.
pub proof fn lemma_output_report_holds_buffer(buffer: Seq<u8>)
    requires
        buffer.len() > 0,
    ensures
        output_report(buffer) is Ok,
        framed(output_report(buffer)->Ok_0) == buffer,
        buffer.len() == 1 ==> output_report(buffer)->Ok_0.payload.len() == 0,
{
    assert(framed(output_report(buffer)->Ok_0) =~= buffer);
}

/// A read with an empty destination fails with `ZeroSizedBuffer` whatever is
/// pending, and leaves the destination as it was.
pub proof fn lemma_empty_destination_is_refused(buffer: Seq<u8>, incoming: Option<ReportView>)
    requires
        buffer.len() == 0,
    ensures
        read_outcome(buffer, incoming).result == Err::<int, HidErrorView>(
            HidErrorView::ZeroSizedBuffer,
        ),
        read_outcome(buffer, incoming).buffer == buffer,
{
}

/// A read succeeds exactly when the destination is not empty, a report is
/// pending, and the report with its id byte fits. The destination then
/// starts with the framed report, the return value is the length of the
/// framed report, and the bytes behind it are unchanged.
pub proof fn lemma_successful_read(buffer: Seq<u8>, incoming: Option<ReportView>)
    ensures
        read_outcome(buffer, incoming).result is Ok <==> buffer.len() > 0 && incoming is Some && 1
            + incoming->0.payload.len() <= buffer.len(),
        read_outcome(buffer, incoming).result is Ok ==> {
            let report = incoming->0;
            let written = read_outcome(buffer, incoming).result->Ok_0;
            let after = read_outcome(buffer, incoming).buffer;
            &&& written == 1 + report.payload.len()
            &&& after.len() == buffer.len()
            &&& after[0] == report.report_id
            &&& after.subrange(1, written) == report.payload
            &&& after.take(written) == framed(report)
            &&& after.skip(written) == buffer.skip(written)
        },
{
    if read_outcome(buffer, incoming).result is Ok {
        let report = incoming->0;
        let written = 1 + report.payload.len() as int;
        let after = read_outcome(buffer, incoming).buffer;
        assert(after.subrange(1, written) =~= report.payload);
        assert(after.take(written) =~= framed(report));
        assert(after.skip(written) =~= buffer.skip(written));
    }
}

/// What a writer frames, a reader with room for it reads back: the report
/// taken out of the bytes that a read has written is the report that was
/// delivered.
pub proof fn lemma_read_then_split(buffer: Seq<u8>, report: ReportView)
    requires
        1 + report.payload.len() <= buffer.len(),
    ensures
        output_report(
            read_outcome(buffer, Some(report)).buffer.take(1 + report.payload.len() as int),
        ) == Ok::<ReportView, HidErrorView>(report),
{
    let written = 1 + report.payload.len() as int;
    let after = read_outcome(buffer, Some(report)).buffer;
    assert(after.take(written) =~= framed(report));
    assert(framed(report).skip(1) =~= report.payload);
}

} // verus!
