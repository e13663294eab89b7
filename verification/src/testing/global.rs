//! The shared statistics aggregator: one [`Report`] behind a reader-writer
//! lock, handed by shared ownership to the scheduler and every worker. Every
//! recorded event is applied under the write lock, so concurrent updates are
//! serialised: none is lost and none is double-counted.

use vstd::prelude::*;
use vstd::rwlock::{RwLock, RwLockPredicate};

use crate::config::ReportConfig;
use crate::report::{
    chosen_report_type, report_accounting, snapshot_matches, Report, ReportSnapshot,
    ReportTypeView, Update,
};

verus! {

/// The lock invariant of the aggregator: whatever report is stored was
/// configured with this destination and this starting instant. The accounting
/// invariant travels with [`Report`] itself, so it also holds of every stored
/// value.
pub ghost struct StatsInv {
    pub report_type: ReportTypeView,
    pub beginning_ms: u64,
}

impl RwLockPredicate<Report> for StatsInv {
    open spec fn inv(self, v: Report) -> bool {
        v@.report_type == self.report_type && v@.beginning_ms == self.beginning_ms
    }
}

/// Thread-safe statistics aggregator. No operation holds the lock longer than
/// one update or one copy of the counters.
pub struct StatsAggregator {
    lock: RwLock<Report, StatsInv>,
}

impl StatsAggregator {
    /// The destination and creation instant this aggregator was initialised
    /// with; every stored report carries them unchanged.
    pub closed spec fn inv(&self) -> StatsInv {
        self.lock.pred()
    }

    /// A fresh aggregator with all counters at zero. `now_ms` is the caller's
    /// clock reading at creation.
    pub fn new(config: &ReportConfig, now_ms: u64) -> (s: Self)
        ensures
            s.inv() == (StatsInv {
                report_type: chosen_report_type(config@),
                beginning_ms: now_ms,
            }),
    {
        let report = Report::new(config, now_ms);
        let ghost pred = StatsInv {
            report_type: chosen_report_type(config@),
            beginning_ms: now_ms,
        };
        StatsAggregator { lock: RwLock::new(report, Ghost(pred)) }
    }

    /// Records one event atomically under the write lock. An event a machine
    /// counter has no room left for is dropped whole, so the accounting
    /// invariant survives even at the counters' limits.
    pub fn record(&self, update: Update) {
        let (mut report, handle) = self.lock.acquire_write();
        if report.can_record(update) {
            report.update(update);
        }
        handle.release_write(report);
    }

    /// An immutable copy of the counters plus elapsed wall-clock time, taken
    /// under a read lock: some serialisation point of all recordings so far.
    /// Whatever was recorded, the copy satisfies the accounting laws and the
    /// configured destination and starting instant are those of creation.
    pub fn snapshot(&self, now_ms: u64) -> (s: ReportSnapshot)
        ensures
            exists|v: crate::report::ReportView|
                {
                    &&& #[trigger] snapshot_matches(s, v, now_ms)
                    &&& report_accounting(v)
                    &&& v.report_type == self.inv().report_type
                    &&& v.beginning_ms == self.inv().beginning_ms
                },
            s.successful_connections + s.failed_connections == s.total_connections,
            s.successful_transmissions + s.failed_transmissions == s.total_transmissions,
            s.total_errors == s.failed_connections + s.failed_transmissions,
    {
        let handle = self.lock.acquire_read();
        let report = handle.borrow();
        proof {
            use_type_invariant(report);
            assert(self.lock.inv(*report));
        }
        let snap = report.generate(now_ms);
        proof {
            assert(snapshot_matches(snap, report@, now_ms));
            assert(report_accounting(report@));
        }
        handle.release_read();
        snap
    }
}

/// A fresh aggregator, explicitly constructed and passed to the scheduler and
/// every worker, in place of hidden global state.
pub fn init_report(config: &ReportConfig, now_ms: u64) -> (s: StatsAggregator)
    ensures
        s.inv() == (StatsInv { report_type: chosen_report_type(config@), beginning_ms: now_ms }),
{
    StatsAggregator::new(config, now_ms)
}

/// Records one event on the shared aggregator.
pub fn update_report(stats: &StatsAggregator, update: Update) {
    stats.record(update)
}

/// The final counters plus elapsed time, for the excluded rendering layer.
pub fn generate_report(stats: &StatsAggregator, now_ms: u64) -> (s: ReportSnapshot)
    ensures
        s.successful_connections + s.failed_connections == s.total_connections,
        s.successful_transmissions + s.failed_transmissions == s.total_transmissions,
        s.total_errors == s.failed_connections + s.failed_transmissions,
{
    stats.snapshot(now_ms)
}

} // verus!
