//! Small value types of the terminal interface: tabs, focus, input mode and
//! popup kinds, and the player event.
use vstd::prelude::*;

verus! {

/// The tab of the content pane, in display order.
#[derive(Debug, Default, Clone, Copy, PartialEq, Eq, Structural)]
pub enum SelectedTab {
    #[default]
    Tracks,
    Albums,
    Artists,
    Playlists,
}

/// The position of `tab` in display order.
pub open spec fn tab_index(tab: SelectedTab) -> nat {
    match tab {
        SelectedTab::Tracks => 0,
        SelectedTab::Albums => 1,
        SelectedTab::Artists => 2,
        SelectedTab::Playlists => 3,
    }
}

impl SelectedTab {
    /// The tab at `index` in display order, if there is one.
    pub fn from_index(index: usize) -> (r: Option<SelectedTab>)
        ensures
            index < 4 ==> r is Some && tab_index(r->0) == index,
            index >= 4 ==> r is None,
    {
        match index {
            0 => Some(SelectedTab::Tracks),
            1 => Some(SelectedTab::Albums),
            2 => Some(SelectedTab::Artists),
            3 => Some(SelectedTab::Playlists),
            _ => None,
        }
    }

    /// The position of this tab in display order.
    pub fn index(self) -> (r: usize)
        ensures
            r == tab_index(self),
    {
        match self {
            SelectedTab::Tracks => 0,
            SelectedTab::Albums => 1,
            SelectedTab::Artists => 2,
            SelectedTab::Playlists => 3,
        }
    }

    /// The tab before this one; the first tab stays where it is.
    pub fn previous(self) -> (r: Self)
        ensures
            tab_index(self) == 0 ==> r == self,
            tab_index(self) > 0 ==> tab_index(r) == tab_index(self) - 1,
    {
        let current_index = self.index();
        let previous_index = if current_index > 0 {
            current_index - 1
        } else {
            0
        };
        match Self::from_index(previous_index) {
            Some(tab) => tab,
            None => self,
        }
    }

    /// The tab after this one; the last tab stays where it is.
    pub fn next(self) -> (r: Self)
        ensures
            tab_index(self) == 3 ==> r == self,
            tab_index(self) < 3 ==> tab_index(r) == tab_index(self) + 1,
    {
        let next_index = self.index() + 1;
        match Self::from_index(next_index) {
            Some(tab) => tab,
            None => self,
        }
    }

    /// The tab's name as shown in its title.
    pub fn name(self) -> (r: &'static str)
        ensures
            r@ == match self {
                SelectedTab::Tracks => "Tracks"@,
                SelectedTab::Albums => "Albums"@,
                SelectedTab::Artists => "Artists"@,
                SelectedTab::Playlists => "Playlists"@,
            },
    {
        match self {
            SelectedTab::Tracks => "Tracks",
            SelectedTab::Albums => "Albums",
            SelectedTab::Artists => "Artists",
            SelectedTab::Playlists => "Playlists",
        }
    }
}

/// Which pane receives key events.
#[derive(Debug, Clone, Copy, Default, PartialEq, Eq, Structural)]
pub enum Focus {
    Search,
    Library,
    Player,
    Content,
    /// No pane.
    #[default]
    Unfocused,
}

/// Whether keys edit the search text or drive the interface.
#[derive(Debug, Clone, Copy, Default, PartialEq, Eq, Structural)]
pub enum InputMode {
    #[default]
    Normal,
    Insert,
}

/// The kind of a popup, which decides its style.
#[derive(Debug, Default, Clone, Copy, PartialEq, Eq, Structural)]
pub enum PopupKind {
    #[default]
    Info,
    Error,
    Warning,
}

/// A request to the player backend.
#[derive(Clone, Debug)]
pub enum OxifyPlayerEvent {
    /// Play the track with this URI.
    PlayTrack(String),
}

} // verus!
