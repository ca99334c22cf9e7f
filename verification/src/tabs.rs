//! The dashboard's tabs and the clamped navigation between them.

use vstd::prelude::*;

verus! {

/// The tab that the dashboard shows.
#[derive(Clone, Copy, Debug, PartialEq, Eq, Structural)]
pub enum SelectedTab {
    Metrics,
    Samples,
    System,
}

/// Number of tabs.
pub const TAB_COUNT: usize = 3;

impl SelectedTab {
    /// Position of the tab in the tab bar, from the left.
    pub open spec fn spec_index(self) -> nat {
        match self {
            SelectedTab::Metrics => 0,
            SelectedTab::Samples => 1,
            SelectedTab::System => 2,
        }
    }

    /// The tab at a position of the tab bar, if there is one.
    pub open spec fn spec_from_repr(index: nat) -> Option<SelectedTab> {
        if index == 0 {
            Some(SelectedTab::Metrics)
        } else if index == 1 {
            Some(SelectedTab::Samples)
        } else if index == 2 {
            Some(SelectedTab::System)
        } else {
            None
        }
    }

    /// The tab one to the left, or the tab itself where it is the first.
    pub open spec fn spec_previous(self) -> SelectedTab {
        match self {
            SelectedTab::Metrics => SelectedTab::Metrics,
            SelectedTab::Samples => SelectedTab::Metrics,
            SelectedTab::System => SelectedTab::Samples,
        }
    }

    /// The tab one to the right, or the tab itself where it is the last.
    pub open spec fn spec_next(self) -> SelectedTab {
        match self {
            SelectedTab::Metrics => SelectedTab::Samples,
            SelectedTab::Samples => SelectedTab::System,
            SelectedTab::System => SelectedTab::System,
        }
    }

    /// The text of the tab in the tab bar.
    pub open spec fn spec_title(self) -> Seq<char> {
        match self {
            SelectedTab::Metrics => "METRICS"@,
            SelectedTab::Samples => "SAMPLES"@,
            SelectedTab::System => "SYSTEM"@,
        }
    }

    /// The text of the tab in the tab bar.
    pub fn title(self) -> (title: &'static str)
        ensures
            title@ == self.spec_title(),
    {
        match self {
            SelectedTab::Metrics => "METRICS",
            SelectedTab::Samples => "SAMPLES",
            SelectedTab::System => "SYSTEM",
        }
    }

    /// Position of the tab in the tab bar.
    pub fn index(self) -> (i: usize)
        ensures
            i == self.spec_index(),
            i < TAB_COUNT,
    {
        match self {
            SelectedTab::Metrics => 0,
            SelectedTab::Samples => 1,
            SelectedTab::System => 2,
        }
    }

    /// The tab at a position of the tab bar; none past the last.
    pub fn from_repr(index: usize) -> (tab: Option<SelectedTab>)
        ensures
            tab == SelectedTab::spec_from_repr(index as nat),
            tab.is_some() <==> index < TAB_COUNT,
            tab matches Some(t) ==> t.spec_index() == index,
    {
        if index == 0 {
            Some(SelectedTab::Metrics)
        } else if index == 1 {
            Some(SelectedTab::Samples)
        } else if index == 2 {
            Some(SelectedTab::System)
        } else {
            None
        }
    }

    /// Moves one tab to the left and stays on the first tab.
    pub fn previous(self) -> (tab: SelectedTab)
        ensures
            tab == self.spec_previous(),
            tab.spec_index() == if self.spec_index() == 0 {
                0
            } else {
                self.spec_index() - 1
            },
    {
        let current_index: usize = self.index();
        let previous_index: usize = current_index.saturating_sub(1);
        match SelectedTab::from_repr(previous_index) {
            Some(tab) => tab,
            None => self,
        }
    }

    /// Moves one tab to the right and stays on the last tab.
    pub fn next(self) -> (tab: SelectedTab)
        ensures
            tab == self.spec_next(),
            tab.spec_index() == if self.spec_index() + 1 == TAB_COUNT {
                self.spec_index()
            } else {
                self.spec_index() + 1
            },
    {
        let current_index: usize = self.index();
        let next_index: usize = current_index.saturating_add(1);
        match SelectedTab::from_repr(next_index) {
            Some(tab) => tab,
            None => self,
        }
    }
}

/// Going left never leaves the tab bar: on the first tab nothing changes,
/// elsewhere the position drops by one.
pub proof fn lemma_previous_is_clamped(tab: SelectedTab)
    ensures
        tab.spec_index() == 0 ==> tab.spec_previous() == tab,
        tab.spec_index() > 0 ==> tab.spec_previous().spec_index() == tab.spec_index() - 1,
        SelectedTab::spec_from_repr(tab.spec_previous().spec_index()) == Some(tab.spec_previous()),
{
}

/// Going right never leaves the tab bar: on the last tab nothing changes,
/// elsewhere the position rises by one.
pub proof fn lemma_next_is_clamped(tab: SelectedTab)
    ensures
        tab.spec_index() + 1 == TAB_COUNT ==> tab.spec_next() == tab,
        tab.spec_index() + 1 < TAB_COUNT ==> tab.spec_next().spec_index() == tab.spec_index() + 1,
        tab.spec_next().spec_index() < TAB_COUNT,
{
}

} // verus!
