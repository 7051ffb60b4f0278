//! Certificate-Transparency (SCT) verification with a fail-open
//! threshold policy.
//!
//! Each presented SCT record is checked by the external CT engine against
//! the caller's trusted logs. One fatally bad record aborts immediately;
//! records the engine merely cannot attribute (unknown log, unsupported
//! version) are passed over. If trusted logs and records were both
//! supplied but nothing validated, the handshake fails with the last
//! recorded error; one valid SCT among many is sufficient. When either
//! the log set or the record list is empty, verification succeeds
//! trivially, without consulting the engine: Certificate Transparency is
//! opportunistic here, not mandatory.
use vstd::prelude::*;

use crate::cert::Certificate;
use crate::error::TlsError;
use crate::time::unix_time_millis;

verus! {

/// An opaque Certificate-Transparency record
/// (a `SignedCertificateTimestamp` encoding).
#[derive(Debug, Clone, PartialEq, Eq)]
pub struct Sct(pub Vec<u8>);

impl View for Sct {
    type V = Seq<u8>;

    open spec fn view(&self) -> Seq<u8> {
        self.0@
    }
}

/// The SCT records attached to or alongside a certificate.
pub type SctList = Vec<Sct>;

/// Declares `sct::Log`, the CT engine's description of one trusted log.
/// Its fields are public; of them the engine's verdict reads only the
/// key hash `id` and the public `key`.
#[verifier::external_type_specification]
pub struct ExSctLog<'a>(sct::Log<'a>);

/// The contents of the trusted logs that the CT engine's verdict depends
/// on: each log's key hash and public key, in the caller's order.
pub open spec fn logs_data(logs: Seq<&sct::Log>) -> Seq<(Seq<u8>, Seq<u8>)> {
    logs.map_values(|l: &sct::Log| (l.id@, l.key@))
}

/// The byte views of a sequence of SCT records, element-wise.
pub open spec fn sct_views(scts: Seq<Sct>) -> Seq<Seq<u8>> {
    scts.map_values(|s: Sct| s@)
}

/// Whether the CT engine classifies this error as fatal. The engine's
/// source treats an unknown log and an unsupported SCT version as the
/// non-fatal cases.
pub open spec fn spec_sct_fatal(e: sct::Error) -> bool {
    !(e == sct::Error::UnknownLog || e == sct::Error::UnsupportedSCTVersion)
}

/// Relies on `sct::Error::should_be_fatal`: the suggested error-handling
/// policy, fatal for every error except an unknown log or an unsupported
/// version.
pub assume_specification[ sct::Error::should_be_fatal ](e: &sct::Error) -> (r: bool)
    ensures
        r == spec_sct_fatal(*e),
;

/// Names the verdict of `sct::verify_sct` on one record: a function of
/// the certificate bytes, the record bytes, the time (milliseconds since
/// the Unix epoch) and the trusted logs' key hashes and keys alone. On
/// success it indexes the log that signed the record.
pub uninterp spec fn sct_verdict(
    cert: Seq<u8>,
    record: Seq<u8>,
    at_time_ms: u64,
    logs: Seq<(Seq<u8>, Seq<u8>)>,
) -> Result<usize, sct::Error>;

/// The CT engine's verdicts for a whole record list, record by record,
/// at one time against one set of trusted logs.
pub open spec fn sct_outcomes(
    cert: Seq<u8>,
    records: Seq<Seq<u8>>,
    at_time_ms: u64,
    logs: Seq<(Seq<u8>, Seq<u8>)>,
) -> Seq<Result<usize, sct::Error>> {
    Seq::new(records.len(), |j: int| sct_verdict(cert, records[j], at_time_ms, logs))
}

/// Relies on `sct::verify_sct`: checks one SCT record for `cert` against
/// the trusted logs at `at_time_ms` (milliseconds since the Unix epoch).
/// The verdict reads, besides the record and certificate bytes and the
/// time, only the logs' `id` and `key` fields, and is deterministic over
/// them; `sct_verdict` names it. A success indexes the matching log.
#[verifier::external_body]
fn verify_single_sct(
    cert: &[u8],
    sct_record: &[u8],
    at_time_ms: u64,
    logs: &[&sct::Log],
) -> (r: Result<usize, sct::Error>)
    ensures
        r == sct_verdict(cert@, sct_record@, at_time_ms, logs_data(logs@)),
        r matches Ok(i) ==> i < logs@.len(),
{
    sct::verify_sct(cert, sct_record, at_time_ms, logs)
}

/// One engine outcome classified: a fatal failure.
pub open spec fn fatal_outcome(o: Result<usize, sct::Error>) -> bool {
    o matches Err(e) && spec_sct_fatal(e)
}

/// The state of the record scan: aborted by a fatal failure, or still
/// running with "some record validated" and the last non-fatal error.
#[derive(Debug, Clone, Copy, PartialEq)]
pub enum SctScan {
    Aborted(sct::Error),
    Running { valid: bool, last: Option<sct::Error> },
}

/// Fold the per-record engine outcomes, in order: the first fatal
/// failure aborts the scan; a success marks the scan valid; a non-fatal
/// failure is recorded as last seen.
pub open spec fn scan(outs: Seq<Result<usize, sct::Error>>) -> SctScan
    decreases outs.len(),
{
    if outs.len() == 0 {
        SctScan::Running { valid: false, last: None }
    } else {
        match scan(outs.drop_last()) {
            SctScan::Aborted(e) => SctScan::Aborted(e),
            SctScan::Running { valid, last } => match outs.last() {
                Ok(_) => SctScan::Running { valid: true, last },
                Err(e) => if spec_sct_fatal(e) {
                    SctScan::Aborted(e)
                } else {
                    SctScan::Running { valid, last: Some(e) }
                },
            },
        }
    }
}

/// The verdict the threshold policy derives from a finished scan: a
/// fatal failure or "nothing validated although something was seen"
/// fails with that error; otherwise Certificate Transparency passes.
pub open spec fn decision_of(s: SctScan) -> Result<(), TlsError> {
    match s {
        SctScan::Aborted(e) => Err(TlsError::InvalidSCT(e)),
        SctScan::Running { valid, last } => if valid {
            Ok(())
        } else {
            match last {
                Some(e) => Err(TlsError::InvalidSCT(e)),
                None => Ok(()),
            }
        },
    }
}

/// Law: without a fatal outcome the scan keeps running, it counts as
/// valid exactly when some record validated, and it holds a last error
/// exactly when some record failed.
pub proof fn lemma_scan_no_fatal(outs: Seq<Result<usize, sct::Error>>)
    requires
        forall|i: int| 0 <= i < outs.len() ==> !fatal_outcome(#[trigger] outs[i]),
    ensures
        scan(outs) matches SctScan::Running { valid, last }
            && (valid <==> exists|i: int| 0 <= i < outs.len() && (#[trigger] outs[i]) is Ok)
            && (last is Some <==> exists|i: int| 0 <= i < outs.len() && (#[trigger] outs[i]) is Err),
    decreases outs.len(),
{
    if outs.len() > 0 {
        lemma_scan_no_fatal(outs.drop_last());
        assert(!fatal_outcome(outs[outs.len() - 1]));
        match scan(outs.drop_last()) {
            SctScan::Aborted(_) => {},
            SctScan::Running { valid, last } => {
                if valid {
                    let w = choose|i: int|
                        0 <= i < outs.drop_last().len() && (#[trigger] outs.drop_last()[i]) is Ok;
                    assert(outs[w] is Ok);
                }
                if last is Some {
                    let w = choose|i: int|
                        0 <= i < outs.drop_last().len() && (#[trigger] outs.drop_last()[i]) is Err;
                    assert(outs[w] is Err);
                }
                if exists|i: int| 0 <= i < outs.len() - 1 && (#[trigger] outs[i]) is Ok {
                    let w = choose|i: int| 0 <= i < outs.len() - 1 && (#[trigger] outs[i]) is Ok;
                    assert(outs.drop_last()[w] is Ok);
                }
                if exists|i: int| 0 <= i < outs.len() - 1 && (#[trigger] outs[i]) is Err {
                    let w = choose|i: int| 0 <= i < outs.len() - 1 && (#[trigger] outs[i]) is Err;
                    assert(outs.drop_last()[w] is Err);
                }
            },
        }
    }
}

/// Law: with every failure non-fatal and at least one record validated,
/// the policy accepts — however many records the trusted logs did not
/// recognize.
pub proof fn lemma_one_valid_suffices(outs: Seq<Result<usize, sct::Error>>)
    requires
        forall|i: int| 0 <= i < outs.len() ==> !fatal_outcome(#[trigger] outs[i]),
        exists|i: int| 0 <= i < outs.len() && (#[trigger] outs[i]) is Ok,
    ensures
        decision_of(scan(outs)) == Ok::<(), TlsError>(()),
{
    lemma_scan_no_fatal(outs);
}

/// Law: an aborted scan never recovers, whatever outcomes follow.
pub proof fn lemma_aborted_persists(outs: Seq<Result<usize, sct::Error>>, k: int)
    requires
        0 <= k <= outs.len(),
        scan(outs.take(k)) is Aborted,
    ensures
        scan(outs) == scan(outs.take(k)),
    decreases outs.len() - k,
{
    if k < outs.len() {
        assert(outs.take(k + 1).drop_last() =~= outs.take(k));
        lemma_aborted_persists(outs, k + 1);
        assert(outs.take(outs.len() as int) =~= outs);
    } else {
        assert(outs.take(k) =~= outs);
    }
}

/// Law: the first fatal outcome decides the whole scan, immediately and
/// independently of every outcome after it — the policy's short-circuit.
pub proof fn lemma_fatal_short_circuit(outs: Seq<Result<usize, sct::Error>>, i: int)
    requires
        0 <= i < outs.len(),
        fatal_outcome(outs[i]),
        forall|j: int| 0 <= j < i ==> !fatal_outcome(#[trigger] outs[j]),
    ensures
        scan(outs) == scan(outs.take(i + 1)),
        outs[i] matches Err(e) && scan(outs) == SctScan::Aborted(e)
            && decision_of(scan(outs)) == Err::<(), TlsError>(TlsError::InvalidSCT(e)),
{
    assert(forall|j: int| 0 <= j < i ==> !fatal_outcome(#[trigger] outs.take(i)[j]));
    lemma_scan_no_fatal(outs.take(i));
    assert(outs.take(i + 1).drop_last() =~= outs.take(i));
    assert(outs.take(i + 1).last() == outs[i]);
    lemma_aborted_persists(outs, i + 1);
}

/// Check the Certificate-Transparency evidence `scts` for `cert`
/// against the trusted `logs` at the given time (milliseconds since the
/// Unix epoch).
///
/// Succeeds trivially, consulting the engine for no record, when the log
/// set or the record list is empty. Otherwise the result is exactly the
/// policy decision of the scan of the engine's verdicts on every
/// presented record at that time: a fatal failure aborts immediately
/// with `InvalidSCT` and the records after it are not evaluated; if no
/// record validates although at least one was presented, the last
/// non-fatal error is reported as `InvalidSCT`; one valid record
/// suffices.
pub fn verify_scts_at(
    cert: &Certificate,
    scts: &SctList,
    logs: &[&sct::Log],
    at_time_ms: u64,
) -> (r: Result<(), TlsError>)
    ensures
        scts@.len() == 0 || logs@.len() == 0 ==> r == Ok::<(), TlsError>(()),
        scts@.len() > 0 && logs@.len() > 0 ==> r == decision_of(scan(sct_outcomes(
            cert@,
            sct_views(scts@),
            at_time_ms,
            logs_data(logs@),
        ))),
        r matches Err(e) ==> e matches TlsError::InvalidSCT(_),
{
    if scts.len() == 0 || logs.len() == 0 {
        return Ok(());
    }
    let ghost full = sct_outcomes(cert@, sct_views(scts@), at_time_ms, logs_data(logs@));

    let mut valid_scts: usize = 0;
    let mut last_sct_error: Option<sct::Error> = None;
    let ghost mut outs: Seq<Result<usize, sct::Error>> = Seq::empty();
    proof {
        assert(outs =~= full.take(0));
    }
    let mut i: usize = 0;
    while i < scts.len()
        invariant
            scts@.len() > 0,
            logs@.len() > 0,
            i <= scts@.len(),
            valid_scts <= i,
            full == sct_outcomes(cert@, sct_views(scts@), at_time_ms, logs_data(logs@)),
            outs == full.take(i as int),
            outs.len() == i,
            scan(outs) == (SctScan::Running { valid: valid_scts > 0, last: last_sct_error }),
        decreases scts@.len() - i,
    {
        match verify_single_sct(cert.0.as_slice(), scts[i].0.as_slice(), at_time_ms, logs) {
            Ok(index) => {
                proof {
                    let o: Result<usize, sct::Error> = Ok(index);
                    assert(o == full[i as int]);
                    assert(outs.push(o).drop_last() =~= outs);
                    assert(full.take(i as int + 1) =~= outs.push(o));
                    outs = outs.push(o);
                }
                valid_scts = valid_scts + 1;
            },
            Err(e) => {
                proof {
                    let o: Result<usize, sct::Error> = Err(e);
                    assert(o == full[i as int]);
                    assert(outs.push(o).drop_last() =~= outs);
                    assert(full.take(i as int + 1) =~= outs.push(o));
                    outs = outs.push(o);
                }
                if e.should_be_fatal() {
                    proof {
                        assert(scan(outs) == SctScan::Aborted(e));
                        lemma_aborted_persists(full, i as int + 1);
                        assert(decision_of(scan(full)) == Err::<(), TlsError>(
                            TlsError::InvalidSCT(e),
                        ));
                    }
                    return Err(TlsError::InvalidSCT(e));
                }
                last_sct_error = Some(e);
            },
        }
        i = i + 1;
    }
    proof {
        assert(outs =~= full);
    }

    // Some logs and some SCTs were supplied; if none of the SCTs could
    // be verified, fail the handshake with the last error seen.
    if valid_scts == 0 {
        match last_sct_error {
            Some(e) => Err(TlsError::InvalidSCT(e)),
            None => {
                // Unreachable: a scan of one or more records that
                // produced no success recorded at least one error.
                proof {
                    assert(outs.len() > 0);
                    assert(!(outs.last() is Ok) ==> outs.last() is Err);
                    assert(false);
                }
                Ok(())
            },
        }
    } else {
        Ok(())
    }
}

/// Verify the Certificate-Transparency evidence `scts` for `cert`
/// against the caller's trusted `logs` at the current wall-clock time.
///
/// Succeeds trivially — consulting neither the engine nor the clock —
/// when the log set or the record list is empty; fails with
/// `FailedToGetCurrentTime` when the clock cannot be read. Otherwise the
/// result is that of `verify_scts_at` at the time the clock gave, a
/// whole number of seconds in milliseconds.
pub fn verify_scts(cert: &Certificate, scts: &SctList, logs: &[&sct::Log]) -> (r: Result<
    (),
    TlsError,
>)
    ensures
        scts@.len() == 0 || logs@.len() == 0 ==> r == Ok::<(), TlsError>(()),
        r matches Err(e) ==> (e matches TlsError::InvalidSCT(_)
            || e == TlsError::FailedToGetCurrentTime),
        r matches Err(TlsError::InvalidSCT(_)) ==> scts@.len() > 0 && logs@.len() > 0,
        r == Err::<(), TlsError>(TlsError::FailedToGetCurrentTime) ==> scts@.len() > 0
            && logs@.len() > 0,
        scts@.len() > 0 && logs@.len() > 0 && r != Err::<(), TlsError>(
            TlsError::FailedToGetCurrentTime,
        ) ==> exists|at_ms: u64|
            at_ms % 1000 == 0 && r == decision_of(scan(#[trigger] sct_outcomes(
                cert@,
                sct_views(scts@),
                at_ms,
                logs_data(logs@),
            ))),
{
    if scts.len() == 0 || logs.len() == 0 {
        return Ok(());
    }
    let now = match unix_time_millis() {
        Ok(t) => t,
        Err(e) => {
            return Err(e);
        },
    };
    verify_scts_at(cert, scts, logs, now)
}

} // verus!
