//! What the dashboard shows: which tab is selected, which panel belongs to
//! it, and how the liveness flag reads in the header.
//!
//! Rendering is the caller's business. These are the few decisions behind
//! it, as plain values.

use vstd::prelude::*;

verus! {

/// The tabs of the dashboard, in the order in which they are shown.
#[derive(Clone, Copy, PartialEq, Eq, Debug, Structural)]
pub enum TabKind {
    Home,
    RaidCenter,
    Settings,
}

/// The number of tabs.
pub const TAB_COUNT: usize = 3;

/// The tab at position `index`, counted from zero.
pub open spec fn tab_of(index: usize) -> Option<TabKind> {
    if index == 0 {
        Some(TabKind::Home)
    } else if index == 1 {
        Some(TabKind::RaidCenter)
    } else if index == 2 {
        Some(TabKind::Settings)
    } else {
        None
    }
}

/// The text shown when the pointer rests on a tab.
pub open spec fn hover_text_of(tab: TabKind) -> Seq<char> {
    match tab {
        TabKind::Home => "Home"@,
        TabKind::RaidCenter => "RaidCenter"@,
        TabKind::Settings => "Settings"@,
    }
}

impl TabKind {
    /// The position of the tab, counted from zero.
    pub fn index(self) -> (index: usize)
        ensures
            index < TAB_COUNT,
            tab_of(index) == Some(self),
    {
        match self {
            TabKind::Home => 0,
            TabKind::RaidCenter => 1,
            TabKind::Settings => 2,
        }
    }

    /// The text shown when the pointer rests on the tab.
    pub fn hover_text(self) -> (text: &'static str)
        ensures
            text@ == hover_text_of(self),
    {
        match self {
            TabKind::Home => "Home",
            TabKind::RaidCenter => "RaidCenter",
            TabKind::Settings => "Settings",
        }
    }
}

/// The tab at position `index`, which is also the panel to show while
/// `index` is the selected position. `None` where no tab has that position.
pub fn tab_at(index: usize) -> (tab: Option<TabKind>)
    ensures
        tab == tab_of(index),
        tab is Some <==> index < TAB_COUNT,
{
    if index == 0 {
        Some(TabKind::Home)
    } else if index == 1 {
        Some(TabKind::RaidCenter)
    } else if index == 2 {
        Some(TabKind::Settings)
    } else {
        None
    }
}

/// Whether the tab at position `index` is the selected one.
pub fn is_active(active_tab: usize, index: usize) -> (active: bool)
    ensures
        active == (active_tab == index),
{
    active_tab == index
}

/// The style class of a tab.
pub fn tab_class(active: bool) -> (class: &'static str)
    ensures
        active ==> class@ == "tab active"@,
        !active ==> class@ == "tab"@,
{
    if active {
        "tab active"
    } else {
        "tab"
    }
}

/// The colour of the status indicator: green for online, red for offline.
pub open spec fn status_color_of(online: bool) -> Seq<char> {
    if online {
        "green"@
    } else {
        "red"@
    }
}

/// The colour of the status indicator.
pub fn status_color(online: bool) -> (color: &'static str)
    ensures
        color@ == status_color_of(online),
{
    if online {
        "green"
    } else {
        "red"
    }
}

/// The inline style of the status indicator: its colour as the background.
pub fn status_style(online: bool) -> (style: &'static str)
    ensures
        style@ == "background-color: "@ + status_color_of(online),
{
    proof {
        reveal_strlit("background-color: green");
        reveal_strlit("background-color: red");
        reveal_strlit("background-color: ");
        reveal_strlit("green");
        reveal_strlit("red");
        assert("background-color: green"@ =~= "background-color: "@ + "green"@);
        assert("background-color: red"@ =~= "background-color: "@ + "red"@);
    }
    if online {
        "background-color: green"
    } else {
        "background-color: red"
    }
}

/// The text beside the status indicator.
pub fn status_text(online: bool) -> (text: &'static str)
    ensures
        online ==> text@ == "SNEK HQ Online"@,
        !online ==> text@ == "SNEK HQ Offline"@,
{
    if online {
        "SNEK HQ Online"
    } else {
        "SNEK HQ Offline"
    }
}

} // verus!
