//! The statistics record kept over a whole test run: counters for connection
//! and transmission outcomes, updated by every worker and read once at
//! shutdown. The accounting invariant — succeeded plus failed equals total,
//! for connections and for transmissions alike — holds in every reachable
//! state.

use vstd::prelude::*;

use crate::config::ReportConfig;

verus! {

/// One outcome event recorded by a worker: a transmission that went through
/// (with the number of bytes written), a transmission whose write attempts
/// were exhausted, a connection that was established, or a connection attempt
/// that failed.
#[derive(Debug, Copy, Clone, PartialEq, Eq, Structural)]
pub enum Update {
    TransmissionSucceed(usize),
    TransmissionFailed,
    ConnectionSucceed,
    ConnectionFailed,
}

/// Where the rendered report goes: one file destination, or the terminal when
/// none was configured.
#[derive(Debug, Clone, PartialEq, Eq)]
pub enum ReportType {
    Json(String),
    Xml(String),
    Text(String),
    Unspecified,
}

/// Mathematical image of a [`ReportType`]: the destination as a character
/// sequence.
pub ghost enum ReportTypeView {
    Json(Seq<char>),
    Xml(Seq<char>),
    Text(Seq<char>),
    Unspecified,
}

impl View for ReportType {
    type V = ReportTypeView;

    open spec fn view(&self) -> ReportTypeView {
        match self {
            ReportType::Json(p) => ReportTypeView::Json(p@),
            ReportType::Xml(p) => ReportTypeView::Xml(p@),
            ReportType::Text(p) => ReportTypeView::Text(p@),
            ReportType::Unspecified => ReportTypeView::Unspecified,
        }
    }
}

/// The destination a [`ReportConfig`] selects: the first file set, in the
/// order JSON, XML, text, and the terminal when none is set.
pub open spec fn chosen_report_type(c: crate::config::ReportConfigView) -> ReportTypeView {
    match c.json_report {
        Some(p) => ReportTypeView::Json(p),
        None => match c.xml_report {
            Some(p) => ReportTypeView::Xml(p),
            None => match c.text_report {
                Some(p) => ReportTypeView::Text(p),
                None => ReportTypeView::Unspecified,
            },
        },
    }
}

/// Mathematical image of a [`Report`]: every counter as an unbounded natural,
/// so that the accounting laws can be stated without machine limits.
pub ghost struct ReportView {
    pub report_type: ReportTypeView,
    pub beginning_ms: u64,
    pub total_bytes_sent: nat,
    pub total_errors: nat,
    pub successful_connections: nat,
    pub failed_connections: nat,
    pub total_connections: nat,
    pub successful_transmissions: nat,
    pub failed_transmissions: nat,
    pub total_transmissions: nat,
}

/// The accounting invariant of the report: each total is the sum of its
/// succeeded and failed parts, and the error count is the sum of the two
/// failure counters.
pub open spec fn report_accounting(v: ReportView) -> bool {
    &&& v.successful_connections + v.failed_connections == v.total_connections
    &&& v.successful_transmissions + v.failed_transmissions == v.total_transmissions
    &&& v.total_errors == v.failed_connections + v.failed_transmissions
}

/// A freshly created report: all counters zero, with the given destination
/// and starting instant.
pub open spec fn fresh_report(t: ReportTypeView, beginning_ms: u64) -> ReportView {
    ReportView {
        report_type: t,
        beginning_ms: beginning_ms,
        total_bytes_sent: 0,
        total_errors: 0,
        successful_connections: 0,
        failed_connections: 0,
        total_connections: 0,
        successful_transmissions: 0,
        failed_transmissions: 0,
        total_transmissions: 0,
    }
}

/// What one recorded event does to the counters.
pub open spec fn report_updated(v: ReportView, u: Update) -> ReportView {
    match u {
        Update::TransmissionSucceed(count) => ReportView {
            successful_transmissions: v.successful_transmissions + 1,
            total_transmissions: v.total_transmissions + 1,
            total_bytes_sent: (v.total_bytes_sent + count) as nat,
            ..v
        },
        Update::TransmissionFailed => ReportView {
            failed_transmissions: v.failed_transmissions + 1,
            total_transmissions: v.total_transmissions + 1,
            total_errors: v.total_errors + 1,
            ..v
        },
        Update::ConnectionSucceed => ReportView {
            successful_connections: v.successful_connections + 1,
            total_connections: v.total_connections + 1,
            ..v
        },
        Update::ConnectionFailed => ReportView {
            failed_connections: v.failed_connections + 1,
            total_connections: v.total_connections + 1,
            total_errors: v.total_errors + 1,
            ..v
        },
    }
}

/// Whether the machine-sized counters have room for one more event, so that
/// recording it cannot overflow.
pub open spec fn report_fits(v: ReportView, u: Update) -> bool {
    match u {
        Update::TransmissionSucceed(count) => v.total_transmissions + 1 <= usize::MAX
            && v.total_bytes_sent + count <= usize::MAX,
        Update::TransmissionFailed => v.total_transmissions + 1 <= usize::MAX
            && v.total_errors + 1 <= usize::MAX,
        Update::ConnectionSucceed => v.total_connections + 1 <= usize::MAX,
        Update::ConnectionFailed => v.total_connections + 1 <= usize::MAX && v.total_errors + 1
            <= usize::MAX,
    }
}

/// The counters after a whole sequence of events has been recorded, one after
/// the other. Concurrent callers are serialised by the aggregator's lock, so
/// any concurrent history is one such sequence.
pub open spec fn report_applied(v: ReportView, s: Seq<Update>) -> ReportView
    decreases s.len(),
{
    if s.len() == 0 {
        v
    } else {
        report_updated(report_applied(v, s.drop_last()), s.last())
    }
}

/// How many events of `s` are connections that succeeded.
pub open spec fn count_connection_succeeded(s: Seq<Update>) -> nat
    decreases s.len(),
{
    if s.len() == 0 {
        0
    } else {
        count_connection_succeeded(s.drop_last()) + (if s.last() is ConnectionSucceed {
            1nat
        } else {
            0nat
        })
    }
}

/// How many events of `s` are connections that failed.
pub open spec fn count_connection_failed(s: Seq<Update>) -> nat
    decreases s.len(),
{
    if s.len() == 0 {
        0
    } else {
        count_connection_failed(s.drop_last()) + (if s.last() is ConnectionFailed {
            1nat
        } else {
            0nat
        })
    }
}

/// How many events of `s` are transmissions that succeeded.
pub open spec fn count_transmission_succeeded(s: Seq<Update>) -> nat
    decreases s.len(),
{
    if s.len() == 0 {
        0
    } else {
        count_transmission_succeeded(s.drop_last()) + (if s.last() is TransmissionSucceed {
            1nat
        } else {
            0nat
        })
    }
}

/// How many events of `s` are transmissions that failed.
pub open spec fn count_transmission_failed(s: Seq<Update>) -> nat
    decreases s.len(),
{
    if s.len() == 0 {
        0
    } else {
        count_transmission_failed(s.drop_last()) + (if s.last() is TransmissionFailed {
            1nat
        } else {
            0nat
        })
    }
}

/// The bytes reported by all successful transmissions of `s` together.
pub open spec fn sum_bytes_sent(s: Seq<Update>) -> nat
    decreases s.len(),
{
    if s.len() == 0 {
        0
    } else {
        sum_bytes_sent(s.drop_last()) + (match s.last() {
            Update::TransmissionSucceed(count) => count as nat,
            _ => 0nat,
        })
    }
}

/// Recording a sequence of events adds exactly the events' tallies to every
/// counter: no event is lost and none is double-counted.
pub proof fn lemma_report_applied_counts(v: ReportView, s: Seq<Update>)
    ensures
        ({
            let r = report_applied(v, s);
            &&& r.successful_connections == v.successful_connections + count_connection_succeeded(
                s,
            )
            &&& r.failed_connections == v.failed_connections + count_connection_failed(s)
            &&& r.total_connections == v.total_connections + count_connection_succeeded(s)
                + count_connection_failed(s)
            &&& r.successful_transmissions == v.successful_transmissions
                + count_transmission_succeeded(s)
            &&& r.failed_transmissions == v.failed_transmissions + count_transmission_failed(s)
            &&& r.total_transmissions == v.total_transmissions + count_transmission_succeeded(s)
                + count_transmission_failed(s)
            &&& r.total_bytes_sent == v.total_bytes_sent + sum_bytes_sent(s)
            &&& r.total_errors == v.total_errors + count_connection_failed(s)
                + count_transmission_failed(s)
            &&& r.report_type == v.report_type
            &&& r.beginning_ms == v.beginning_ms
        }),
    decreases s.len(),
{
    if s.len() > 0 {
        lemma_report_applied_counts(v, s.drop_last());
    }
}

/// When every event of `s` is a connection outcome, the two tallies cover
/// `s` whole.
proof fn lemma_connection_counts_cover(s: Seq<Update>)
    requires
        forall|i: int|
            0 <= i < s.len() ==> (s[i] is ConnectionSucceed || s[i] is ConnectionFailed),
    ensures
        count_connection_succeeded(s) + count_connection_failed(s) == s.len(),
    decreases s.len(),
{
    if s.len() > 0 {
        lemma_connection_counts_cover(s.drop_last());
    }
}

/// When every event of `s` is a transmission outcome, the two tallies cover
/// `s` whole.
proof fn lemma_transmission_counts_cover(s: Seq<Update>)
    requires
        forall|i: int|
            0 <= i < s.len() ==> (s[i] is TransmissionSucceed || s[i] is TransmissionFailed),
    ensures
        count_transmission_succeeded(s) + count_transmission_failed(s) == s.len(),
    decreases s.len(),
{
    if s.len() > 0 {
        lemma_transmission_counts_cover(s.drop_last());
    }
}

/// For any N connection-outcome events recorded in any serial order on a
/// fresh report, succeeded plus failed equals total equals N — and the same
/// law holds for transmission outcomes. The aggregator's lock makes every
/// concurrent history one such serial order.
pub proof fn lemma_report_accounting_holds(t: ReportTypeView, beginning_ms: u64, s: Seq<Update>)
    ensures
        ({
            let r = report_applied(fresh_report(t, beginning_ms), s);
            &&& report_accounting(r)
            &&& r.total_connections == count_connection_succeeded(s) + count_connection_failed(s)
            &&& r.total_transmissions == count_transmission_succeeded(s)
                + count_transmission_failed(s)
            &&& r.total_bytes_sent == sum_bytes_sent(s)
            &&& (forall|i: int|
                0 <= i < s.len() ==> (s[i] is ConnectionSucceed || s[i] is ConnectionFailed))
                ==> r.total_connections == s.len()
            &&& (forall|i: int|
                0 <= i < s.len() ==> (s[i] is TransmissionSucceed || s[i] is TransmissionFailed))
                ==> r.total_transmissions == s.len()
        }),
{
    lemma_report_applied_counts(fresh_report(t, beginning_ms), s);
    if forall|i: int|
        0 <= i < s.len() ==> (s[i] is ConnectionSucceed || s[i] is ConnectionFailed) {
        lemma_connection_counts_cover(s);
    }
    if forall|i: int|
        0 <= i < s.len() ==> (s[i] is TransmissionSucceed || s[i] is TransmissionFailed) {
        lemma_transmission_counts_cover(s);
    }
}

/// The machine-sized counters of a [`Report`], grouped so that one event is
/// applied as a single assignment.
#[derive(Debug, Copy, Clone)]
struct Counters {
    total_bytes_sent: usize,
    total_errors: usize,
    successful_connections: usize,
    failed_connections: usize,
    total_connections: usize,
    successful_transmissions: usize,
    failed_transmissions: usize,
    total_transmissions: usize,
}

/// The mutable statistics record. All counters satisfy [`report_accounting`]
/// at all times; the destination and the starting instant never change after
/// construction.
pub struct Report {
    report_type: ReportType,
    beginning_ms: u64,
    counters: Counters,
}

impl View for Report {
    type V = ReportView;

    closed spec fn view(&self) -> ReportView {
        ReportView {
            report_type: self.report_type@,
            beginning_ms: self.beginning_ms,
            total_bytes_sent: self.counters.total_bytes_sent as nat,
            total_errors: self.counters.total_errors as nat,
            successful_connections: self.counters.successful_connections as nat,
            failed_connections: self.counters.failed_connections as nat,
            total_connections: self.counters.total_connections as nat,
            successful_transmissions: self.counters.successful_transmissions as nat,
            failed_transmissions: self.counters.failed_transmissions as nat,
            total_transmissions: self.counters.total_transmissions as nat,
        }
    }
}

impl Report {
    #[verifier::type_invariant]
    pub(crate) open spec fn wf(self) -> bool {
        report_accounting(self@)
    }

    /// A fresh report with all counters at zero. `now_ms` is the caller's
    /// clock reading at creation, against which elapsed time is measured.
    pub fn new(config: &ReportConfig, now_ms: u64) -> (r: Self)
        ensures
            r@ == fresh_report(chosen_report_type(config@), now_ms),
    {
        Report {
            report_type: {
                if let Some(filename) = &config.json_report {
                    ReportType::Json(filename.clone())
                } else if let Some(filename) = &config.xml_report {
                    ReportType::Xml(filename.clone())
                } else if let Some(filename) = &config.text_report {
                    ReportType::Text(filename.clone())
                } else {
                    ReportType::Unspecified
                }
            },
            beginning_ms: now_ms,
            counters: Counters {
                total_bytes_sent: 0,
                total_errors: 0,
                successful_connections: 0,
                failed_connections: 0,
                total_connections: 0,
                successful_transmissions: 0,
                failed_transmissions: 0,
                total_transmissions: 0,
            },
        }
    }

    /// Whether one more event can be recorded without a counter overflowing.
    pub fn can_record(&self, update: Update) -> (b: bool)
        ensures
            b == report_fits(self@, update),
    {
        proof {
            use_type_invariant(self);
        }
        match update {
            Update::TransmissionSucceed(count) => self.counters.total_transmissions < usize::MAX
                && count <= usize::MAX - self.counters.total_bytes_sent,
            Update::TransmissionFailed => self.counters.total_transmissions < usize::MAX
                && self.counters.total_errors < usize::MAX,
            Update::ConnectionSucceed => self.counters.total_connections < usize::MAX,
            Update::ConnectionFailed => self.counters.total_connections < usize::MAX
                && self.counters.total_errors < usize::MAX,
        }
    }

    /// Applies one event to the counters, exactly as [`report_updated`] says.
    pub fn update(&mut self, update: Update)
        requires
            report_fits(old(self)@, update),
        ensures
            final(self)@ == report_updated(old(self)@, update),
    {
        proof {
            use_type_invariant(&*self);
        }
        let c = self.counters;
        self.counters = match update {
            Update::TransmissionSucceed(count) => Counters {
                successful_transmissions: c.successful_transmissions + 1,
                total_transmissions: c.total_transmissions + 1,
                total_bytes_sent: c.total_bytes_sent + count,
                ..c
            },
            Update::TransmissionFailed => Counters {
                failed_transmissions: c.failed_transmissions + 1,
                total_transmissions: c.total_transmissions + 1,
                total_errors: c.total_errors + 1,
                ..c
            },
            Update::ConnectionSucceed => Counters {
                successful_connections: c.successful_connections + 1,
                total_connections: c.total_connections + 1,
                ..c
            },
            Update::ConnectionFailed => Counters {
                failed_connections: c.failed_connections + 1,
                total_connections: c.total_connections + 1,
                total_errors: c.total_errors + 1,
                ..c
            },
        };
    }

    /// The destination the report was configured with.
    pub fn report_type(&self) -> (t: &ReportType)
        ensures
            t@ == self@.report_type,
    {
        &self.report_type
    }

    /// An immutable copy of all counters plus the wall-clock time elapsed
    /// since creation, for the excluded rendering layer. `now_ms` is the
    /// caller's clock reading; a clock that went backwards reads as zero
    /// elapsed time.
    pub fn generate(&self, now_ms: u64) -> (s: ReportSnapshot)
        ensures
            snapshot_matches(s, self@, now_ms),
    {
        ReportSnapshot {
            elapsed_ms: if now_ms >= self.beginning_ms {
                now_ms - self.beginning_ms
            } else {
                0
            },
            total_bytes_sent: self.counters.total_bytes_sent,
            total_errors: self.counters.total_errors,
            successful_connections: self.counters.successful_connections,
            failed_connections: self.counters.failed_connections,
            total_connections: self.counters.total_connections,
            successful_transmissions: self.counters.successful_transmissions,
            failed_transmissions: self.counters.failed_transmissions,
            total_transmissions: self.counters.total_transmissions,
        }
    }

    /// Bytes written by all successful transmissions together.
    pub fn total_bytes_sent(&self) -> (n: usize)
        ensures
            n == self@.total_bytes_sent,
    {
        self.counters.total_bytes_sent
    }

    /// Failed connections and failed transmissions together.
    pub fn total_errors(&self) -> (n: usize)
        ensures
            n == self@.total_errors,
    {
        self.counters.total_errors
    }

    /// Connections that were established.
    pub fn successful_connections(&self) -> (n: usize)
        ensures
            n == self@.successful_connections,
    {
        self.counters.successful_connections
    }

    /// Connection attempts that failed.
    pub fn failed_connections(&self) -> (n: usize)
        ensures
            n == self@.failed_connections,
    {
        self.counters.failed_connections
    }

    /// All connection outcomes.
    pub fn total_connections(&self) -> (n: usize)
        ensures
            n == self@.total_connections,
    {
        self.counters.total_connections
    }

    /// Transmissions whose write went through.
    pub fn successful_transmissions(&self) -> (n: usize)
        ensures
            n == self@.successful_transmissions,
    {
        self.counters.successful_transmissions
    }

    /// Transmissions whose write attempts were exhausted.
    pub fn failed_transmissions(&self) -> (n: usize)
        ensures
            n == self@.failed_transmissions,
    {
        self.counters.failed_transmissions
    }

    /// All transmission outcomes.
    pub fn total_transmissions(&self) -> (n: usize)
        ensures
            n == self@.total_transmissions,
    {
        self.counters.total_transmissions
    }
}

/// An immutable copy of the counters, taken at shutdown for rendering.
#[derive(Debug, Copy, Clone, PartialEq, Eq, Structural)]
pub struct ReportSnapshot {
    pub elapsed_ms: u64,
    pub total_bytes_sent: usize,
    pub total_errors: usize,
    pub successful_connections: usize,
    pub failed_connections: usize,
    pub total_connections: usize,
    pub successful_transmissions: usize,
    pub failed_transmissions: usize,
    pub total_transmissions: usize,
}

/// Whether a snapshot reproduces every counter of `v`, with elapsed time
/// measured from the report's creation to `now_ms` and clamped at zero.
pub open spec fn snapshot_matches(s: ReportSnapshot, v: ReportView, now_ms: u64) -> bool {
    &&& s.elapsed_ms == if now_ms >= v.beginning_ms {
        now_ms - v.beginning_ms
    } else {
        0
    }
    &&& s.total_bytes_sent == v.total_bytes_sent
    &&& s.total_errors == v.total_errors
    &&& s.successful_connections == v.successful_connections
    &&& s.failed_connections == v.failed_connections
    &&& s.total_connections == v.total_connections
    &&& s.successful_transmissions == v.successful_transmissions
    &&& s.failed_transmissions == v.failed_transmissions
    &&& s.total_transmissions == v.total_transmissions
}

} // verus!
