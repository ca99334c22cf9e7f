//! The dashboard's state and the steps of its loop.

use crate::events::{command, spec_command, Command, KeyEvent};
use crate::metrics::{latency_or_zero, MetricsSnapshot};
use crate::series::{
    lemma_pushed_evicts_oldest, most_recent, pushed, pushed_all, RollingSeries, CAPACITY,
};
use crate::tabs::SelectedTab;
use vstd::prelude::*;

verus! {

/// Time between two ticks of the dashboard, in milliseconds.
pub const TICK_MILLIS: u64 = 1000;

/// Whether the dashboard goes on.
#[derive(Clone, Copy, Debug, PartialEq, Eq, Structural)]
pub enum AppState {
    Running,
    Quitting,
}

/// How a tick of the dashboard ends.
#[derive(Clone, Copy, Debug, PartialEq, Eq, Structural)]
pub enum TickOutcome {
    /// Sleep for the given time, then tick again.
    Continue { sleep_millis: u64 },
    /// Leave the loop and restore the terminal.
    Exit,
}

/// The dashboard's state as plain values.
pub struct AppView {
    pub queries_num: Seq<u64>,
    pub queries_iter_num: Seq<u64>,
    pub errors_num: Seq<u64>,
    pub errors_iter_num: Seq<u64>,
    pub latency_avg_ms: Seq<u64>,
    pub latency_percentile_ms: Seq<u64>,
    pub queries_num_prev: u64,
    pub queries_iter_num_prev: u64,
    pub errors_num_prev: u64,
    pub errors_iter_num_prev: u64,
    pub read_logs: Seq<String>,
    pub cpu_usage: u16,
    pub memory_usage: u16,
    pub selected_tab: SelectedTab,
    pub state: AppState,
}

impl AppView {
    /// The state of a dashboard that has seen nothing yet.
    pub open spec fn initial() -> AppView {
        AppView {
            queries_num: Seq::empty(),
            queries_iter_num: Seq::empty(),
            errors_num: Seq::empty(),
            errors_iter_num: Seq::empty(),
            latency_avg_ms: Seq::empty(),
            latency_percentile_ms: Seq::empty(),
            queries_num_prev: 0,
            queries_iter_num_prev: 0,
            errors_num_prev: 0,
            errors_iter_num_prev: 0,
            read_logs: Seq::empty(),
            cpu_usage: 0,
            memory_usage: 0,
            selected_tab: SelectedTab::Metrics,
            state: AppState::Running,
        }
    }

    /// No history of a metric holds more than `CAPACITY` entries.
    pub open spec fn metrics_within_capacity(self) -> bool {
        &&& self.queries_num.len() <= CAPACITY
        &&& self.queries_iter_num.len() <= CAPACITY
        &&& self.errors_num.len() <= CAPACITY
        &&& self.errors_iter_num.len() <= CAPACITY
        &&& self.latency_avg_ms.len() <= CAPACITY
        &&& self.latency_percentile_ms.len() <= CAPACITY
    }

    /// Neither a history nor the log of samples holds more than `CAPACITY`
    /// entries.
    pub open spec fn within_capacity(self) -> bool {
        &&& self.metrics_within_capacity()
        &&& self.read_logs.len() <= CAPACITY
    }

    /// Whether no counter of the snapshot is behind the one seen last.
    pub open spec fn follows(self, metrics: MetricsSnapshot) -> bool {
        &&& self.queries_num_prev <= metrics.queries_num
        &&& self.queries_iter_num_prev <= metrics.queries_iter_num
        &&& self.errors_num_prev <= metrics.errors_num
        &&& self.errors_iter_num_prev <= metrics.errors_iter_num
    }

    /// The state after a snapshot was taken in: each counter's history gains
    /// the growth of the counter since the last snapshot, each latency's
    /// history gains the latency as reported, and the counters are remembered.
    pub open spec fn after_metrics(self, metrics: MetricsSnapshot) -> AppView {
        AppView {
            queries_num: pushed(
                self.queries_num,
                (metrics.queries_num - self.queries_num_prev) as u64,
            ),
            queries_iter_num: pushed(
                self.queries_iter_num,
                (metrics.queries_iter_num - self.queries_iter_num_prev) as u64,
            ),
            errors_num: pushed(self.errors_num, (metrics.errors_num - self.errors_num_prev) as u64),
            errors_iter_num: pushed(
                self.errors_iter_num,
                (metrics.errors_iter_num - self.errors_iter_num_prev) as u64,
            ),
            latency_avg_ms: pushed(self.latency_avg_ms, latency_or_zero(metrics.latency_avg_ms)),
            latency_percentile_ms: pushed(
                self.latency_percentile_ms,
                latency_or_zero(metrics.latency_percentile_ms),
            ),
            queries_num_prev: metrics.queries_num,
            queries_iter_num_prev: metrics.queries_iter_num,
            errors_num_prev: metrics.errors_num,
            errors_iter_num_prev: metrics.errors_iter_num,
            ..self
        }
    }

    /// The state after the host's load was taken in.
    pub open spec fn after_system(self, cpu_usage: u16, memory_usage: u16) -> AppView {
        AppView { cpu_usage, memory_usage, ..self }
    }

    /// The state after read samples arrived, in their order.
    pub open spec fn after_samples(self, rows: Seq<String>) -> AppView {
        AppView { read_logs: pushed_all(self.read_logs, rows), ..self }
    }

    /// The state after a command.
    pub open spec fn after_command(self, command: Option<Command>) -> AppView {
        match command {
            None => self,
            Some(Command::NextTab) => AppView {
                selected_tab: self.selected_tab.spec_next(),
                ..self
            },
            Some(Command::PreviousTab) => AppView {
                selected_tab: self.selected_tab.spec_previous(),
                ..self
            },
            Some(Command::Quit) => AppView { state: AppState::Quitting, ..self },
        }
    }

    /// How a tick ends: the loop is left once the dashboard is quitting or
    /// the workload was cancelled.
    pub open spec fn outcome(self, cancelled: bool) -> TickOutcome {
        if self.state == AppState::Quitting || cancelled {
            TickOutcome::Exit
        } else {
            TickOutcome::Continue { sleep_millis: TICK_MILLIS }
        }
    }
}

/// The six histories of metrics, in the order in which they are shown.
pub open spec fn history(view: AppView, panel: int) -> Seq<u64> {
    if panel == 0 {
        view.latency_avg_ms
    } else if panel == 1 {
        view.latency_percentile_ms
    } else if panel == 2 {
        view.queries_num
    } else if panel == 3 {
        view.queries_iter_num
    } else if panel == 4 {
        view.errors_num
    } else {
        view.errors_iter_num
    }
}

/// Tab navigation is clamped: going left on the first tab and going right
/// on the last tab leave the whole state as it is.
pub proof fn lemma_tab_navigation_is_clamped(view: AppView)
    ensures
        view.selected_tab == SelectedTab::Metrics ==> view.after_command(
            Some(Command::PreviousTab),
        ) == view,
        view.selected_tab == SelectedTab::System ==> view.after_command(Some(Command::NextTab))
            == view,
{
}

/// Quitting is final: no command, snapshot, load or sample brings a
/// dashboard that is quitting back to running, and every tick of it exits.
pub proof fn lemma_quitting_is_final(
    view: AppView,
    command: Option<Command>,
    metrics: MetricsSnapshot,
    cpu_usage: u16,
    memory_usage: u16,
    rows: Seq<String>,
    cancelled: bool,
)
    requires
        view.state == AppState::Quitting,
    ensures
        view.after_command(command).state == AppState::Quitting,
        view.after_metrics(metrics).state == AppState::Quitting,
        view.after_system(cpu_usage, memory_usage).state == AppState::Quitting,
        view.after_samples(rows).state == AppState::Quitting,
        view.outcome(cancelled) == TickOutcome::Exit,
{
}

/// Once the workload is cancelled the dashboard's tick exits, whatever its
/// state; and a quit command makes the tick exit without cancellation.
pub proof fn lemma_dashboard_observes_cancellation(view: AppView)
    ensures
        view.outcome(true) == TickOutcome::Exit,
        view.after_command(Some(Command::Quit)).outcome(false) == TickOutcome::Exit,
{
}

/// The counters' histories record growth: after two snapshots in a row the
/// newest rate is the difference of the two counters, and the second
/// snapshot's counter is the one remembered.
pub proof fn lemma_rate_is_growth(view: AppView, first: MetricsSnapshot, second: MetricsSnapshot)
    requires
        first.queries_num <= second.queries_num,
    ensures
        view.after_metrics(first).after_metrics(second).queries_num.last() == second.queries_num
            - first.queries_num,
        view.after_metrics(first).after_metrics(second).queries_num_prev == second.queries_num,
{
}

/// A snapshot never takes a history over the capacity, whatever its
/// counters: each history grows by one entry up to the capacity, and at the
/// capacity only its oldest entry leaves.
pub proof fn lemma_update_keeps_capacity(view: AppView, metrics: MetricsSnapshot)
    requires
        view.metrics_within_capacity(),
    ensures
        view.after_metrics(metrics).metrics_within_capacity(),
        forall|panel: int|
            0 <= panel < 6 ==> (#[trigger] history(view.after_metrics(metrics), panel)).len() == if history(
                view,
                panel,
            ).len() < CAPACITY {
                history(view, panel).len() + 1
            } else {
                CAPACITY as nat
            },
        forall|panel: int|
            0 <= panel < 6 && history(view, panel).len() == CAPACITY ==> (#[trigger] history(
                view.after_metrics(metrics),
                panel,
            )).drop_last() == history(view, panel).drop_first(),
        forall|panel: int|
            0 <= panel < 6 && history(view, panel).len() < CAPACITY ==> (#[trigger] history(
                view.after_metrics(metrics),
                panel,
            )).drop_last() == history(view, panel),
{
    let after = view.after_metrics(metrics);
    assert forall|panel: int| 0 <= panel < 6 implies {
        let old_history = history(view, panel);
        let new_history = #[trigger] history(after, panel);
        &&& new_history.len() == if old_history.len() < CAPACITY {
            old_history.len() + 1
        } else {
            CAPACITY as nat
        }
        &&& old_history.len() == CAPACITY ==> new_history.drop_last() == old_history.drop_first()
        &&& old_history.len() < CAPACITY ==> new_history.drop_last() == old_history
    } by {
        let old_history = history(view, panel);
        let new_history = history(after, panel);
        let value = new_history.last();
        assert(new_history == pushed(old_history, value));
        lemma_pushed_evicts_oldest(old_history, value);
        if old_history.len() == CAPACITY {
            assert(old_history.drop_first().push(value).drop_last() =~= old_history.drop_first());
        } else {
            assert(old_history.push(value).drop_last() =~= old_history);
        }
    }
}

/// The dashboard: six histories of metrics, the log of read samples, the
/// host's load, the selected tab and whether the dashboard goes on.
pub struct App {
    queries_num: RollingSeries<u64>,
    queries_iter_num: RollingSeries<u64>,
    errors_num: RollingSeries<u64>,
    errors_iter_num: RollingSeries<u64>,
    latency_avg_ms: RollingSeries<u64>,
    latency_percentile_ms: RollingSeries<u64>,
    queries_num_prev: u64,
    queries_iter_num_prev: u64,
    errors_num_prev: u64,
    errors_iter_num_prev: u64,
    read_logs: RollingSeries<String>,
    cpu_usage: u16,
    memory_usage: u16,
    selected_tab: SelectedTab,
    state: AppState,
}

impl View for App {
    type V = AppView;

    closed spec fn view(&self) -> AppView {
        AppView {
            queries_num: self.queries_num@,
            queries_iter_num: self.queries_iter_num@,
            errors_num: self.errors_num@,
            errors_iter_num: self.errors_iter_num@,
            latency_avg_ms: self.latency_avg_ms@,
            latency_percentile_ms: self.latency_percentile_ms@,
            queries_num_prev: self.queries_num_prev,
            queries_iter_num_prev: self.queries_iter_num_prev,
            errors_num_prev: self.errors_num_prev,
            errors_iter_num_prev: self.errors_iter_num_prev,
            read_logs: self.read_logs@,
            cpu_usage: self.cpu_usage,
            memory_usage: self.memory_usage,
            selected_tab: self.selected_tab,
            state: self.state,
        }
    }
}

impl App {
    /// A dashboard that has seen nothing yet: empty histories, the metrics
    /// tab selected, running.
    pub fn new() -> (app: App)
        ensures
            app@ == AppView::initial(),
            app@.within_capacity(),
    {
        App {
            queries_num: RollingSeries::new(),
            queries_iter_num: RollingSeries::new(),
            errors_num: RollingSeries::new(),
            errors_iter_num: RollingSeries::new(),
            latency_avg_ms: RollingSeries::new(),
            latency_percentile_ms: RollingSeries::new(),
            queries_num_prev: 0,
            queries_iter_num_prev: 0,
            errors_num_prev: 0,
            errors_iter_num_prev: 0,
            read_logs: RollingSeries::new(),
            cpu_usage: 0,
            memory_usage: 0,
            selected_tab: SelectedTab::Metrics,
            state: AppState::Running,
        }
    }

    /// Whether no counter of the snapshot is behind the one seen last, so
    /// that the snapshot can be taken in.
    pub fn follows(&self, metrics: &MetricsSnapshot) -> (follows: bool)
        ensures
            follows == self@.follows(*metrics),
    {
        self.queries_num_prev <= metrics.queries_num && self.queries_iter_num_prev
            <= metrics.queries_iter_num && self.errors_num_prev <= metrics.errors_num
            && self.errors_iter_num_prev <= metrics.errors_iter_num
    }

    /// Takes in a snapshot of the store client's metrics.
    pub fn update_metrics(&mut self, metrics: &MetricsSnapshot)
        requires
            old(self)@.follows(*metrics),
        ensures
            final(self)@ == old(self)@.after_metrics(*metrics),
            final(self)@.metrics_within_capacity(),
    {
        let queries_num_rate: u64 = metrics.queries_num - self.queries_num_prev;
        let queries_iter_num_rate: u64 = metrics.queries_iter_num - self.queries_iter_num_prev;
        let errors_num_rate: u64 = metrics.errors_num - self.errors_num_prev;
        let errors_iter_num_rate: u64 = metrics.errors_iter_num - self.errors_iter_num_prev;

        self.queries_num_prev = metrics.queries_num;
        self.queries_iter_num_prev = metrics.queries_iter_num;
        self.errors_num_prev = metrics.errors_num;
        self.errors_iter_num_prev = metrics.errors_iter_num;

        self.queries_num.push(queries_num_rate);
        self.queries_iter_num.push(queries_iter_num_rate);
        self.errors_num.push(errors_num_rate);
        self.errors_iter_num.push(errors_iter_num_rate);
        self.latency_avg_ms.push(
            match metrics.latency_avg_ms {
                Some(millis) => millis,
                None => 0,
            },
        );
        self.latency_percentile_ms.push(
            match metrics.latency_percentile_ms {
                Some(millis) => millis,
                None => 0,
            },
        );
    }

    /// Takes in the host's load: the use of the processors and of the
    /// memory, in percent.
    pub fn update_system(&mut self, cpu_usage: u16, memory_usage: u16)
        ensures
            final(self)@ == old(self)@.after_system(cpu_usage, memory_usage),
    {
        self.cpu_usage = cpu_usage;
        self.memory_usage = memory_usage;
    }

    /// Appends read samples to the log, which keeps the most recent ones.
    pub fn record_samples(&mut self, rows: Vec<String>)
        ensures
            final(self)@ == old(self)@.after_samples(rows@),
            final(self)@.read_logs == most_recent(old(self)@.read_logs + rows@, CAPACITY as nat),
            final(self)@.read_logs.len() <= CAPACITY,
    {
        self.read_logs.push_all(rows);
    }

    /// The first steps of a tick: takes in the metrics, the host's load and
    /// the read samples that were waiting.
    pub fn refresh(
        &mut self,
        metrics: &MetricsSnapshot,
        cpu_usage: u16,
        memory_usage: u16,
        rows: Vec<String>,
    )
        requires
            old(self)@.follows(*metrics),
        ensures
            final(self)@ == old(self)@.after_metrics(*metrics).after_system(
                cpu_usage,
                memory_usage,
            ).after_samples(rows@),
            final(self)@.within_capacity(),
    {
        self.update_metrics(metrics);
        self.update_system(cpu_usage, memory_usage);
        self.record_samples(rows);
    }

    /// Selects the tab to the right; on the last tab nothing changes.
    pub fn next_tab(&mut self)
        ensures
            final(self)@ == old(self)@.after_command(Some(Command::NextTab)),
    {
        self.selected_tab = self.selected_tab.next();
    }

    /// Selects the tab to the left; on the first tab nothing changes.
    pub fn previous_tab(&mut self)
        ensures
            final(self)@ == old(self)@.after_command(Some(Command::PreviousTab)),
    {
        self.selected_tab = self.selected_tab.previous();
    }

    /// Stops the dashboard: it leaves its loop at the end of the tick. The
    /// result says that the workload is to be cancelled with it: whoever
    /// quits the dashboard flips the signal that all workers share.
    pub fn quit(&mut self) -> (cancel: bool)
        ensures
            final(self)@ == old(self)@.after_command(Some(Command::Quit)),
            final(self)@.state == AppState::Quitting,
            cancel,
    {
        self.state = AppState::Quitting;
        true
    }

    /// Acts on the keyboard input that was polled, if there was any. The
    /// result says whether the user quit, in which case the workload is to
    /// be cancelled.
    pub fn handle_events(&mut self, event: Option<KeyEvent>) -> (cancel: bool)
        ensures
            final(self)@ == old(self)@.after_command(spec_command(event)),
            cancel == (spec_command(event) == Some(Command::Quit)),
            cancel ==> final(self)@.state == AppState::Quitting,
    {
        match command(event) {
            Some(Command::NextTab) => {
                self.next_tab();
                false
            },
            Some(Command::PreviousTab) => {
                self.previous_tab();
                false
            },
            Some(Command::Quit) => self.quit(),
            None => false,
        }
    }

    /// The last step of a tick: whether to go on, given whether the workload
    /// was cancelled.
    pub fn end_tick(&self, cancelled: bool) -> (outcome: TickOutcome)
        ensures
            outcome == self@.outcome(cancelled),
    {
        match self.state {
            AppState::Quitting => TickOutcome::Exit,
            AppState::Running => if cancelled {
                TickOutcome::Exit
            } else {
                TickOutcome::Continue { sleep_millis: TICK_MILLIS }
            },
        }
    }

    /// The counters of the snapshot that was taken in last, in the order
    /// queries, iterating queries, errors, errors of iterating queries.
    pub fn previous_counters(&self) -> (counters: (u64, u64, u64, u64))
        ensures
            counters.0 == self@.queries_num_prev,
            counters.1 == self@.queries_iter_num_prev,
            counters.2 == self@.errors_num_prev,
            counters.3 == self@.errors_iter_num_prev,
    {
        (
            self.queries_num_prev,
            self.queries_iter_num_prev,
            self.errors_num_prev,
            self.errors_iter_num_prev,
        )
    }

    /// History of the average latency, in milliseconds.
    pub fn latency_avg_ms(&self) -> (series: &RollingSeries<u64>)
        ensures
            series@ == self@.latency_avg_ms,
    {
        &self.latency_avg_ms
    }

    /// History of the 99.9th percentile of the latency, in milliseconds.
    pub fn latency_percentile_ms(&self) -> (series: &RollingSeries<u64>)
        ensures
            series@ == self@.latency_percentile_ms,
    {
        &self.latency_percentile_ms
    }

    /// History of the queries per tick.
    pub fn queries_num(&self) -> (series: &RollingSeries<u64>)
        ensures
            series@ == self@.queries_num,
    {
        &self.queries_num
    }

    /// History of the pages of iterating queries per tick.
    pub fn queries_iter_num(&self) -> (series: &RollingSeries<u64>)
        ensures
            series@ == self@.queries_iter_num,
    {
        &self.queries_iter_num
    }

    /// History of the errors of queries per tick.
    pub fn errors_num(&self) -> (series: &RollingSeries<u64>)
        ensures
            series@ == self@.errors_num,
    {
        &self.errors_num
    }

    /// History of the errors of iterating queries per tick.
    pub fn errors_iter_num(&self) -> (series: &RollingSeries<u64>)
        ensures
            series@ == self@.errors_iter_num,
    {
        &self.errors_iter_num
    }

    /// The log of read samples.
    pub fn read_logs(&self) -> (log: &RollingSeries<String>)
        ensures
            log@ == self@.read_logs,
    {
        &self.read_logs
    }

    /// The processors' load, in percent.
    pub fn cpu_usage(&self) -> (percent: u16)
        ensures
            percent == self@.cpu_usage,
    {
        self.cpu_usage
    }

    /// The memory in use, in percent.
    pub fn memory_usage(&self) -> (percent: u16)
        ensures
            percent == self@.memory_usage,
    {
        self.memory_usage
    }

    /// The selected tab.
    pub fn selected_tab(&self) -> (tab: SelectedTab)
        ensures
            tab == self@.selected_tab,
    {
        self.selected_tab
    }

    /// Whether the dashboard goes on.
    pub fn state(&self) -> (state: AppState)
        ensures
            state == self@.state,
    {
        self.state
    }
}

} // verus!
