//! The frame around the pages: a side bar that selects the page, and the
//! choice between the side bar and the page as the receiver of keys.

use crate::pages::Key;
use vstd::prelude::*;
use vstd::string::StringExecFns;

verus! {

/// A list with at most one entry selected.
#[derive(Debug)]
pub struct StatefulList<T> {
    pub selected: Option<usize>,
    pub items: Vec<T>,
}

/// The place selected after that at `selected`, in a list of `len` entries:
/// the next one, and the first one after the last.
pub open spec fn place_after(selected: Option<usize>, len: nat) -> usize {
    match selected {
        Some(i) => if i >= len - 1 {
            0
        } else {
            (i + 1) as usize
        },
        None => 0,
    }
}

/// The place selected before that at `selected`, in a list of `len` entries:
/// the one before, and the last one before the first.
pub open spec fn place_before(selected: Option<usize>, len: nat) -> usize {
    match selected {
        Some(i) => if i == 0 {
            (len - 1) as usize
        } else {
            (i - 1) as usize
        },
        None => 0,
    }
}

impl<T> StatefulList<T> {
    /// A list of `items` with the first one selected.
    pub fn with_items(items: Vec<T>) -> (list: StatefulList<T>)
        ensures
            list.selected == Some(0usize),
            list.items == items,
    {
        StatefulList { selected: Some(0), items }
    }

    /// Selects the next entry, going round from the last to the first.
    pub fn next(&mut self)
        requires
            old(self).items@.len() > 0,
        ensures
            final(self).items == old(self).items,
            final(self).selected == Some(place_after(old(self).selected, old(self).items@.len())),
    {
        let i = match self.selected {
            Some(i) => {
                if i >= self.items.len() - 1 {
                    0
                } else {
                    i + 1
                }
            },
            None => 0,
        };
        self.selected = Some(i);
    }

    /// Selects the entry before, going round from the first to the last.
    pub fn previous(&mut self)
        requires
            old(self).items@.len() > 0,
        ensures
            final(self).items == old(self).items,
            final(self).selected == Some(place_before(old(self).selected, old(self).items@.len())),
    {
        let i = match self.selected {
            Some(i) => {
                if i == 0 {
                    self.items.len() - 1
                } else {
                    i - 1
                }
            },
            None => 0,
        };
        self.selected = Some(i);
    }
}

/// Going round a list never leaves it.
pub proof fn lemma_selection_stays_inside(selected: Option<usize>, len: nat)
    requires
        0 < len <= usize::MAX,
    ensures
        place_after(selected, len) < len,
        selected is Some && selected->0 < len ==> place_before(selected, len) < len,
        selected is None ==> place_before(selected, len) < len,
{
}

/// The pages that the side bar offers.
#[derive(Debug, Clone, Copy, PartialEq, Eq, Structural)]
pub enum CurrentPage {
    Home,
    Transactions,
    Logout,
}

impl Default for CurrentPage {
    fn default() -> (page: CurrentPage)
        ensures
            page == CurrentPage::Home,
    {
        CurrentPage::Home
    }
}

impl CurrentPage {
    /// The title of the page.
    pub open spec fn title(self) -> Seq<char> {
        match self {
            CurrentPage::Home => "Home"@,
            CurrentPage::Transactions => "Transactions"@,
            CurrentPage::Logout => "Logout"@,
        }
    }

    /// The title of the page, as the side bar shows it.
    pub fn to_string(&self) -> (title: String)
        ensures
            title@ == self.title(),
    {
        String::from_str(
            match self {
                CurrentPage::Home => "Home",
                CurrentPage::Transactions => "Transactions",
                CurrentPage::Logout => "Logout",
            },
        )
    }
}

/// The side bar: the pages by their titles, one of them selected.
#[derive(Debug)]
pub struct SideBar {
    pub items: StatefulList<(&'static str, CurrentPage)>,
}

/// The pages of the side bar, in their order.
pub open spec fn side_bar_pages() -> Seq<CurrentPage> {
    seq![CurrentPage::Home, CurrentPage::Transactions, CurrentPage::Logout]
}

impl SideBar {
    /// The pages that the side bar offers, in their order.
    pub open spec fn pages(self) -> Seq<CurrentPage> {
        Seq::new(self.items.items@.len(), |i: int| self.items.items@[i].1)
    }

    /// Every entry bears the title of its page.
    pub open spec fn titled(self) -> bool {
        forall|i: int|
            0 <= i < self.items.items@.len() ==> (#[trigger] self.items.items@[i]).0@
                == self.items.items@[i].1.title()
    }

    /// The side bar with the home page selected.
    pub fn new() -> (bar: SideBar)
        ensures
            bar.pages() == side_bar_pages(),
            bar.titled(),
            bar.items.items@.len() == 3,
            bar.items.selected == Some(0usize),
    {
        let mut items: Vec<(&'static str, CurrentPage)> = Vec::new();
        items.push(("Home", CurrentPage::Home));
        items.push(("Transactions", CurrentPage::Transactions));
        items.push(("Logout", CurrentPage::Logout));
        let bar = SideBar { items: StatefulList::with_items(items) };
        bar
    }

    /// The page selected, if one is.
    pub open spec fn selected_page(self) -> Option<CurrentPage> {
        match self.items.selected {
            Some(i) if i < self.items.items@.len() => Some(self.items.items@[i as int].1),
            _ => None,
        }
    }

    /// The page selected, if one is.
    pub fn selected(&self) -> (page: Option<CurrentPage>)
        ensures
            page == self.selected_page(),
    {
        match self.items.selected {
            Some(i) => {
                if i < self.items.items.len() {
                    Some(self.items.items[i].1)
                } else {
                    None
                }
            },
            None => None,
        }
    }
}

/// Which part of the screen receives the keys.
#[derive(Debug, Clone, Copy, PartialEq, Eq, Structural)]
pub enum FocusedArea {
    SideBar,
    MainWindow,
}

/// What the frame does after a key.
#[derive(Debug, Clone, Copy, PartialEq, Eq, Structural)]
pub enum HomeAction {
    /// Go on.
    Stay,
    /// Leave the program.
    Quit,
    /// Log out, then leave the program.
    Logout,
}

/// The frame: the side bar, the place of the page on show, and what has the
/// focus.
#[derive(Debug)]
pub struct Home {
    pub focused_area: FocusedArea,
    pub side_bar: SideBar,
    /// The place in the side bar of the page on show.
    pub shown: usize,
}

/// The effect of a key on the frame. `released` tells, for a key that went
/// to the page first, whether the page let it through.
///
/// With the focus on the side bar, `Down` and `Up` move the selection,
/// `Right` hands the focus to the page, `Esc` quits, and `Enter` on `Logout`
/// logs out. With the focus on the page, a key that the page lets through
/// quits if it is `Esc` and hands the focus back if it is `Left`.
pub open spec fn home_action(
    focused_area: FocusedArea,
    selected: Option<CurrentPage>,
    key: Key,
    released: bool,
) -> HomeAction {
    match focused_area {
        FocusedArea::SideBar => match key {
            Key::Esc => HomeAction::Quit,
            Key::Enter => if selected == Some(CurrentPage::Logout) {
                HomeAction::Logout
            } else {
                HomeAction::Stay
            },
            _ => HomeAction::Stay,
        },
        FocusedArea::MainWindow => if released && key == Key::Esc {
            HomeAction::Quit
        } else {
            HomeAction::Stay
        },
    }
}

/// What has the focus after a key.
pub open spec fn focus_after(focused_area: FocusedArea, key: Key, released: bool) -> FocusedArea {
    match focused_area {
        FocusedArea::SideBar => if key == Key::Right {
            FocusedArea::MainWindow
        } else {
            FocusedArea::SideBar
        },
        FocusedArea::MainWindow => if released && key == Key::Left {
            FocusedArea::SideBar
        } else {
            FocusedArea::MainWindow
        },
    }
}

/// The selection of the side bar after a key.
pub open spec fn selection_after(
    focused_area: FocusedArea,
    selected: Option<usize>,
    len: nat,
    key: Key,
) -> Option<usize> {
    match (focused_area, key) {
        (FocusedArea::SideBar, Key::Down) => Some(place_after(selected, len)),
        (FocusedArea::SideBar, Key::Up) => Some(place_before(selected, len)),
        _ => selected,
    }
}

impl Home {
    /// The side bar has entries, and what is selected is one of them.
    pub open spec fn selects_an_entry(self) -> bool {
        &&& self.side_bar.items.items@.len() > 0
        &&& self.side_bar.items.selected matches Some(i) ==> i < self.side_bar.items.items@.len()
    }

    /// The frame at the start: the home page on show, the focus on the side bar.
    pub fn new() -> (home: Home)
        ensures
            home.focused_area == FocusedArea::SideBar,
            home.shown == 0,
            home.side_bar.pages() == side_bar_pages(),
            home.side_bar.titled(),
            home.side_bar.items.items@.len() == 3,
            home.side_bar.items.selected == Some(0usize),
            home.selects_an_entry(),
    {
        Home { focused_area: FocusedArea::SideBar, side_bar: SideBar::new(), shown: 0 }
    }

    /// Tells whether another page than the one on show is selected, and if
    /// so takes it as the one on show: the page to put up, or `None` for the
    /// entry `Logout`, which has no page.
    pub fn page_to_show(&mut self) -> (change: Option<Option<CurrentPage>>)
        requires
            old(self).selects_an_entry(),
        ensures
            final(self).side_bar == old(self).side_bar,
            final(self).focused_area == old(self).focused_area,
            match old(self).side_bar.items.selected {
                Some(i) if i != old(self).shown => {
                    &&& final(self).shown == i
                    &&& change == Some(
                        match old(self).side_bar.items.items@[i as int].1 {
                            CurrentPage::Logout => None,
                            page => Some(page),
                        },
                    )
                },
                _ => final(self).shown == old(self).shown && change is None,
            },
    {
        match self.side_bar.items.selected {
            Some(selected) => {
                if selected != self.shown {
                    self.shown = selected;
                    Some(
                        match self.side_bar.items.items[selected].1 {
                            CurrentPage::Logout => None,
                            page => Some(page),
                        },
                    )
                } else {
                    None
                }
            },
            None => None,
        }
    }

    /// Takes in a key. A key pressed while the page has the focus goes to
    /// the page first, and `released` tells whether the page let it through;
    /// without a page every key is let through.
    pub fn on_key(&mut self, key: Key, released: bool) -> (action: HomeAction)
        requires
            old(self).selects_an_entry(),
        ensures
            final(self).selects_an_entry(),
            action == home_action(
                old(self).focused_area,
                old(self).side_bar.selected_page(),
                key,
                released,
            ),
            final(self).focused_area == focus_after(old(self).focused_area, key, released),
            final(self).side_bar.items.items == old(self).side_bar.items.items,
            final(self).side_bar.items.selected == selection_after(
                old(self).focused_area,
                old(self).side_bar.items.selected,
                old(self).side_bar.items.items@.len(),
                key,
            ),
            final(self).shown == old(self).shown,
    {
        match self.focused_area {
            FocusedArea::SideBar => match key {
                Key::Esc => HomeAction::Quit,
                Key::Down => {
                    self.side_bar.items.next();
                    HomeAction::Stay
                },
                Key::Up => {
                    self.side_bar.items.previous();
                    HomeAction::Stay
                },
                Key::Right => {
                    self.focused_area = FocusedArea::MainWindow;
                    HomeAction::Stay
                },
                Key::Enter => match self.side_bar.selected() {
                    Some(CurrentPage::Logout) => HomeAction::Logout,
                    _ => HomeAction::Stay,
                },
                _ => HomeAction::Stay,
            },
            FocusedArea::MainWindow => {
                if !released {
                    HomeAction::Stay
                } else {
                    match key {
                        Key::Esc => HomeAction::Quit,
                        Key::Left => {
                            self.focused_area = FocusedArea::SideBar;
                            HomeAction::Stay
                        },
                        _ => HomeAction::Stay,
                    }
                }
            },
        }
    }
}

} // verus!
