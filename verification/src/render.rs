//! What the dashboard shows: a description of the screen in plain values,
//! made from the state, for a display surface to draw.

use crate::app::{history, App, AppView};
use crate::series::CAPACITY;
use crate::tabs::{SelectedTab, TAB_COUNT};
use crate::text::{decimal, decimal_digits};
use vstd::prelude::*;

verus! {

/// The colours of the dashboard.
#[derive(Clone, Copy, Debug, PartialEq, Eq, Structural)]
pub enum Color {
    Blue,
    LightBlue,
    Green,
    LightGreen,
    Red,
    LightRed,
    White,
}

/// Number of panels on the metrics tab.
pub const METRIC_PANELS: usize = 6;

/// The newest value of a history, or zero where it is empty.
pub open spec fn latest(data: Seq<u64>) -> u64 {
    if data.len() == 0 {
        0
    } else {
        data.last()
    }
}

/// The title of a panel: its name, then in brackets the newest value and the
/// unit.
pub open spec fn spec_panel_title(name: Seq<char>, newest: u64, unit: Seq<char>) -> Seq<char> {
    name + " ("@ + decimal_digits(newest as nat) + " "@ + unit + ")"@
}

/// The name of each panel of the metrics tab, from the top.
pub open spec fn metric_name(panel: int) -> Seq<char> {
    if panel == 0 {
        "Average Latency"@
    } else if panel == 1 {
        "P99.9 Latency"@
    } else if panel == 2 {
        "Writes"@
    } else if panel == 3 {
        "Reads"@
    } else if panel == 4 {
        "Write Errors"@
    } else {
        "Read Errors"@
    }
}

/// The unit of each panel of the metrics tab.
pub open spec fn metric_unit(panel: int) -> Seq<char> {
    if panel < 2 {
        "ms"@
    } else {
        "ops/s"@
    }
}

/// The colour of each panel of the metrics tab.
pub open spec fn metric_color(panel: int) -> Color {
    if panel == 0 {
        Color::Blue
    } else if panel == 1 {
        Color::LightBlue
    } else if panel == 2 {
        Color::Green
    } else if panel == 3 {
        Color::LightGreen
    } else if panel == 4 {
        Color::Red
    } else {
        Color::LightRed
    }
}

/// The share of the tab's height that each panel of the metrics tab takes,
/// in percent.
pub open spec fn metric_height(panel: int) -> u16 {
    if panel < 4 {
        20
    } else {
        10
    }
}

/// The history behind each panel of the metrics tab.
pub open spec fn metric_data(view: AppView, panel: int) -> Seq<u64> {
    history(view, panel)
}

/// A history drawn as a line of bars under a title.
pub struct Sparkline {
    pub title: String,
    pub data: Vec<u64>,
    pub color: Color,
    /// Share of the tab's height, in percent.
    pub height_percent: u16,
}

impl Sparkline {
    /// Whether this is the panel at position `panel` of the metrics tab for
    /// the state `view`.
    pub open spec fn shows(self, view: AppView, panel: int) -> bool {
        &&& self.title@ == spec_panel_title(
            metric_name(panel),
            latest(metric_data(view, panel)),
            metric_unit(panel),
        )
        &&& self.data@ == metric_data(view, panel)
        &&& self.color == metric_color(panel)
        &&& self.height_percent == metric_height(panel)
    }
}

/// A level between nothing and full, drawn as a bar under a title.
pub struct Gauge {
    pub title: String,
    pub percent: u16,
    pub color: Color,
    /// Share of the tab's height, in percent.
    pub height_percent: u16,
}

impl Gauge {
    /// Whether this is the gauge at position `gauge` of the system tab for
    /// the state `view`: the processors' load above the memory's.
    pub open spec fn shows(self, view: AppView, gauge: int) -> bool {
        &&& self.title@ == if gauge == 0 {
            "CPU"@
        } else {
            "MEM"@
        }
        &&& self.percent == if gauge == 0 {
            view.cpu_usage
        } else {
            view.memory_usage
        }
        &&& self.color == if gauge == 0 {
            Color::Blue
        } else {
            Color::LightBlue
        }
        &&& self.height_percent == 50
    }
}

/// The log of read samples, drawn as a list under a title.
pub struct SampleList {
    pub title: String,
    pub items: Vec<String>,
    pub color: Color,
}

impl SampleList {
    /// Whether this is the list of the samples tab for the state `view`.
    pub open spec fn shows(self, view: AppView) -> bool {
        &&& self.title@ == "Read Samples"@
        &&& self.items@ == view.read_logs
        &&& self.color == Color::White
    }
}

/// What is drawn below the tab bar.
pub enum Body {
    Metrics(Vec<Sparkline>),
    Samples(SampleList),
    System(Vec<Gauge>),
}

impl Body {
    /// Whether this is the body of the selected tab for the state `view`.
    pub open spec fn shows(self, view: AppView) -> bool {
        match self {
            Body::Metrics(panels) => {
                &&& view.selected_tab == SelectedTab::Metrics
                &&& panels@.len() == METRIC_PANELS
                &&& forall|panel: int|
                    0 <= panel < METRIC_PANELS ==> (#[trigger] panels@[panel]).shows(view, panel)
            },
            Body::Samples(list) => {
                &&& view.selected_tab == SelectedTab::Samples
                &&& list.shows(view)
            },
            Body::System(gauges) => {
                &&& view.selected_tab == SelectedTab::System
                &&& gauges@.len() == 2
                &&& forall|gauge: int| 0 <= gauge < 2 ==> (#[trigger] gauges@[gauge]).shows(view, gauge)
            },
        }
    }
}

/// One frame of the dashboard: the tab bar and the body of the selected tab.
pub struct Screen {
    /// The texts of the tab bar, from the left.
    pub tab_titles: Vec<String>,
    /// Position of the selected tab in the tab bar.
    pub selected: usize,
    /// Colour of the selected tab's text.
    pub highlight: Color,
    pub body: Body,
}

impl Screen {
    /// Whether this is the frame for the state `view`.
    pub open spec fn shows(self, view: AppView) -> bool {
        &&& self.tab_titles@.len() == TAB_COUNT
        &&& forall|tab: int|
            0 <= tab < TAB_COUNT ==> (#[trigger] self.tab_titles@[tab])@
                == SelectedTab::spec_from_repr(tab as nat).unwrap().spec_title()
        &&& self.selected == view.selected_tab.spec_index()
        &&& self.highlight == Color::LightBlue
        &&& self.body.shows(view)
    }
}

/// The title of a panel: its name, then in brackets the newest value and the
/// unit.
pub fn panel_title(name: &str, newest: u64, unit: &str) -> (title: String)
    ensures
        title@ == spec_panel_title(name@, newest, unit@),
{
    let mut title: String = String::from_str(name);
    title.append(" (");
    let digits: String = decimal(newest);
    title.append(digits.as_str());
    title.append(" ");
    title.append(unit);
    title.append(")");
    assert(title@ =~= spec_panel_title(name@, newest, unit@));
    title
}

/// A copy of a history.
fn copy_values(values: &Vec<u64>) -> (copy: Vec<u64>)
    ensures
        copy@ == values@,
{
    let mut copy: Vec<u64> = Vec::new();
    let mut i: usize = 0;
    while i < values.len()
        invariant
            i <= values.len(),
            copy@ == values@.take(i as int),
        decreases values.len() - i,
    {
        copy.push(values[i]);
        assert(copy@ =~= values@.take(i + 1));
        i += 1;
    }
    assert(values@.take(i as int) =~= values@);
    copy
}

/// A copy of a list of texts.
fn copy_texts(texts: &Vec<String>) -> (copy: Vec<String>)
    ensures
        copy@ == texts@,
{
    let mut copy: Vec<String> = Vec::new();
    let mut i: usize = 0;
    while i < texts.len()
        invariant
            i <= texts.len(),
            copy@ == texts@.take(i as int),
        decreases texts.len() - i,
    {
        copy.push(texts[i].clone());
        assert(copy@ =~= texts@.take(i + 1));
        i += 1;
    }
    assert(texts@.take(i as int) =~= texts@);
    copy
}

/// One panel of the metrics tab.
fn sparkline(name: &str, unit: &str, data: &Vec<u64>, color: Color, height_percent: u16) -> (panel:
    Sparkline)
    ensures
        panel.title@ == spec_panel_title(name@, latest(data@), unit@),
        panel.data@ == data@,
        panel.color == color,
        panel.height_percent == height_percent,
{
    let newest: u64 = if data.len() == 0 {
        0
    } else {
        data[data.len() - 1]
    };
    Sparkline { title: panel_title(name, newest, unit), data: copy_values(data), color, height_percent }
}

impl App {
    /// The texts of the tab bar, from the left.
    pub fn render_tabs(&self) -> (titles: Vec<String>)
        ensures
            titles@.len() == TAB_COUNT,
            forall|tab: int|
                0 <= tab < TAB_COUNT ==> (#[trigger] titles@[tab])@ == SelectedTab::spec_from_repr(
                    tab as nat,
                ).unwrap().spec_title(),
    {
        let mut titles: Vec<String> = Vec::new();
        titles.push(String::from_str(SelectedTab::Metrics.title()));
        titles.push(String::from_str(SelectedTab::Samples.title()));
        titles.push(String::from_str(SelectedTab::System.title()));
        titles
    }

    /// The panels of the metrics tab, from the top: both latencies, then
    /// writes, reads and their errors, each titled with its newest value.
    pub fn render_metrics(&self) -> (panels: Vec<Sparkline>)
        ensures
            panels@.len() == METRIC_PANELS,
            forall|panel: int|
                0 <= panel < METRIC_PANELS ==> (#[trigger] panels@[panel]).shows(self@, panel),
            forall|panel: int|
                0 <= panel < METRIC_PANELS ==> (#[trigger] panels@[panel]).data@.len() <= CAPACITY,
    {
        let mut panels: Vec<Sparkline> = Vec::new();
        panels.push(
            sparkline("Average Latency", "ms", self.latency_avg_ms().entries(), Color::Blue, 20),
        );
        panels.push(
            sparkline(
                "P99.9 Latency",
                "ms",
                self.latency_percentile_ms().entries(),
                Color::LightBlue,
                20,
            ),
        );
        panels.push(sparkline("Writes", "ops/s", self.queries_num().entries(), Color::Green, 20));
        panels.push(
            sparkline("Reads", "ops/s", self.queries_iter_num().entries(), Color::LightGreen, 20),
        );
        panels.push(sparkline("Write Errors", "ops/s", self.errors_num().entries(), Color::Red, 10));
        panels.push(
            sparkline("Read Errors", "ops/s", self.errors_iter_num().entries(), Color::LightRed, 10),
        );
        panels
    }

    /// The list of the samples tab: the log of read samples, oldest first.
    pub fn render_samples(&self) -> (list: SampleList)
        ensures
            list.shows(self@),
            list.items@.len() <= CAPACITY,
    {
        SampleList {
            title: String::from_str("Read Samples"),
            items: copy_texts(self.read_logs().entries()),
            color: Color::White,
        }
    }

    /// The gauges of the system tab: the processors' load above the memory's.
    pub fn render_system(&self) -> (gauges: Vec<Gauge>)
        ensures
            gauges@.len() == 2,
            forall|gauge: int| 0 <= gauge < 2 ==> (#[trigger] gauges@[gauge]).shows(self@, gauge),
    {
        let mut gauges: Vec<Gauge> = Vec::new();
        gauges.push(
            Gauge {
                title: String::from_str("CPU"),
                percent: self.cpu_usage(),
                color: Color::Blue,
                height_percent: 50,
            },
        );
        gauges.push(
            Gauge {
                title: String::from_str("MEM"),
                percent: self.memory_usage(),
                color: Color::LightBlue,
                height_percent: 50,
            },
        );
        gauges
    }

    /// The frame to draw: the tab bar with the selected tab marked, and below
    /// it the body of the selected tab.
    pub fn render(&self) -> (screen: Screen)
        ensures
            screen.shows(self@),
    {
        let tab: SelectedTab = self.selected_tab();
        let body: Body = match tab {
            SelectedTab::Metrics => Body::Metrics(self.render_metrics()),
            SelectedTab::Samples => Body::Samples(self.render_samples()),
            SelectedTab::System => Body::System(self.render_system()),
        };
        Screen {
            tab_titles: self.render_tabs(),
            selected: tab.index(),
            highlight: Color::LightBlue,
            body,
        }
    }
}

} // verus!
