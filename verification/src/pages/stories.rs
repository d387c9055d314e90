//! The page of past transactions: a table of payments between people, with a
//! last row that loads more.

use crate::pages::Key;
use crate::types::{StoriesResponse, Story, StorySubType, StoryView};
use vstd::prelude::*;
use vstd::string::StringExecFns;

verus! {

/// The number of stories that one load asks for.
pub const LOAD_SIZE: u32 = 30;

/// What the last row shows while a load is under way.
pub const LOADING: &'static str = "Loading...";

/// What the last row shows when more can be loaded.
pub const LOAD_MORE: &'static str = "Load more :)";

/// The rows of a table of texts.
pub type Rows = Seq<Seq<Seq<char>>>;

/// The row that shows `story`: the amount, the user names of the receiver and
/// of the sender, the date and the note. Only a payment between two people
/// that names both of them has a row.
pub open spec fn row_of(story: StoryView) -> Option<Seq<Seq<char>>> {
    match (story.title.sub_type, story.title.receiver, story.title.sender) {
        (StorySubType::P2p, Some(receiver), Some(sender)) => Some(
            seq![
                story.amount,
                receiver.username,
                sender.username,
                story.date,
                match story.note {
                    Some(note) => note,
                    None => Seq::empty(),
                },
            ],
        ),
        _ => None,
    }
}

/// The rows that show `stories`, in their order. A story without a row is
/// passed over.
pub open spec fn rows_of(stories: Seq<StoryView>) -> Rows
    decreases stories.len(),
{
    if stories.len() == 0 {
        Seq::empty()
    } else {
        let before = rows_of(stories.drop_last());
        match row_of(stories.last()) {
            Some(row) => before.push(row),
            None => before,
        }
    }
}

/// The rows after more stories were loaded: the last row makes way for the
/// rows of the stories, and a new last row offers to load more.
pub open spec fn rows_with_more(rows: Rows, stories: Seq<StoryView>) -> Rows {
    let kept = if rows.len() > 0 {
        rows.drop_last()
    } else {
        rows
    };
    (kept + rows_of(stories)).push(seq![LOAD_MORE@])
}

/// The place selected after `selected` when moving down a table of `len`
/// rows: the next one, but none beyond the last.
pub open spec fn row_below(selected: Option<usize>, len: nat) -> usize {
    match selected {
        Some(i) => if i >= len - 1 {
            i
        } else {
            (i + 1) as usize
        },
        None => 0,
    }
}

/// The place selected after `selected` when moving up: the one before, but
/// none above the first.
pub open spec fn row_above(selected: Option<usize>) -> usize {
    match selected {
        Some(i) => if i == 0 {
            0
        } else {
            (i - 1) as usize
        },
        None => 0,
    }
}

/// The page of past transactions.
#[derive(Debug)]
pub struct StoriesPage {
    /// Whether more stories are to be loaded.
    pub loading: bool,
    /// The cursor that the last load gave.
    pub last: Option<String>,
    /// The place of the row selected.
    pub selected: Option<usize>,
    /// The rows of the table, the last of which is no story.
    pub items: Vec<Vec<String>>,
}

fn row(story: &Story) -> (cells: Option<Vec<String>>)
    ensures
        cells.deep_view() == row_of(story@),
{
    match story.title.payload.sub_type {
        StorySubType::P2p => match (&story.title.receiver, &story.title.sender) {
            (Some(receiver), Some(sender)) => {
                let mut cells: Vec<String> = Vec::new();
                cells.push(story.amount.clone());
                cells.push(receiver.username.clone());
                cells.push(sender.username.clone());
                cells.push(story.date.clone());
                cells.push(
                    match &story.note.content {
                        Some(note) => note.clone(),
                        None => String::new(),
                    },
                );
                Some(cells)
            },
            _ => None,
        },
        _ => None,
    }
}

fn last_row(text: &str) -> (cells: Vec<String>)
    ensures
        cells.deep_view() == seq![text@],
        cells@.len() == 1,
{
    let mut cells: Vec<String> = Vec::new();
    cells.push(String::from_str(text));
    cells
}

impl StoriesPage {
    /// The table has a last row, and the row has a cell.
    pub open spec fn ends_with_a_row(self) -> bool {
        self.items@.len() > 0 && self.items@.last()@.len() > 0
    }

    /// Makes the rows that show `data`.
    pub fn create_table_rows(data: Vec<Story>) -> (rows: Vec<Vec<String>>)
        ensures
            rows.deep_view() == rows_of(data.deep_view()),
    {
        let ghost stories = data.deep_view();
        let n = data.len();
        let mut rows: Vec<Vec<String>> = Vec::new();
        let mut i: usize = 0;
        while i < n
            invariant
                n == data@.len(),
                stories == data.deep_view(),
                i <= n,
                rows.deep_view() == rows_of(stories.take(i as int)),
            decreases n - i,
        {
            proof {
                assert(stories.take(i + 1).drop_last() =~= stories.take(i as int));
            }
            match row(&data[i]) {
                Some(cells) => {
                    rows.push(cells);
                },
                None => {},
            }
            i = i + 1;
        }
        assert(stories.take(n as int) =~= stories);
        rows
    }

    /// The page before its first load.
    pub fn new() -> (page: StoriesPage)
        ensures
            page.loading,
            page.last is None,
            page.selected is None,
            page.items.deep_view() == seq![seq![LOADING@]],
            page.ends_with_a_row(),
    {
        let mut items: Vec<Vec<String>> = Vec::new();
        items.push(last_row(LOADING));
        StoriesPage { last: None, loading: true, selected: None, items }
    }

    /// Takes in the stories that a load brought: their rows take the place
    /// of the last row, a new last row offers to load more, and the cursor is
    /// kept for the next load.
    pub fn load_more_items(&mut self, stories_data: StoriesResponse)
        ensures
            final(self).items.deep_view() == rows_with_more(
                old(self).items.deep_view(),
                stories_data.stories.deep_view(),
            ),
            final(self).last.deep_view() == Some(stories_data.next_id@),
            final(self).loading == old(self).loading,
            final(self).selected == old(self).selected,
            final(self).ends_with_a_row(),
    {
        self.items.pop();
        let mut more = Self::create_table_rows(stories_data.stories);
        self.items.append(&mut more);
        self.items.push(last_row(LOAD_MORE));
        self.last = Some(stories_data.next_id);
    }

    /// Selects the row below, down to the last.
    pub fn next(&mut self)
        requires
            old(self).items@.len() > 0,
        ensures
            final(self).selected == Some(row_below(old(self).selected, old(self).items@.len())),
            final(self).items == old(self).items,
            final(self).loading == old(self).loading,
            final(self).last == old(self).last,
    {
        let i = match self.selected {
            Some(i) => {
                if i >= self.items.len() - 1 {
                    i
                } else {
                    i + 1
                }
            },
            None => 0,
        };
        self.selected = Some(i);
    }

    /// Selects the row above, up to the first.
    pub fn previous(&mut self)
        ensures
            final(self).selected == Some(row_above(old(self).selected)),
            final(self).items == old(self).items,
            final(self).loading == old(self).loading,
            final(self).last == old(self).last,
    {
        let i = match self.selected {
            Some(i) => {
                if i == 0 {
                    0
                } else {
                    i - 1
                }
            },
            None => 0,
        };
        self.selected = Some(i);
    }

    /// Selects no row.
    pub fn unselect(&mut self)
        ensures
            final(self).selected is None,
            final(self).items == old(self).items,
            final(self).loading == old(self).loading,
            final(self).last == old(self).last,
    {
        self.selected = None;
    }

    /// Whether `Enter` on the row selected asks for more stories: it does on
    /// the last row, and on any place beyond.
    pub open spec fn asks_for_more(self) -> bool {
        self.selected matches Some(i) && i >= self.items@.len() - 1
    }

    /// Takes in a key, and tells whether the page gives up the focus.
    ///
    /// `Down` and `Up` move the selection. `Enter` on the last row starts a
    /// load, which the row then announces. `Left` and `Esc` drop the
    /// selection and give up the focus.
    pub fn on_input_event(&mut self, key: Key) -> (leave: bool)
        requires
            old(self).ends_with_a_row(),
        ensures
            final(self).ends_with_a_row(),
            leave == (key == Key::Left || key == Key::Esc),
            final(self).last == old(self).last,
            final(self).selected == match key {
                Key::Down => Some(row_below(old(self).selected, old(self).items@.len())),
                Key::Up => Some(row_above(old(self).selected)),
                Key::Left | Key::Esc => None,
                _ => old(self).selected,
            },
            final(self).loading == (old(self).loading || (key == Key::Enter && old(
                self,
            ).asks_for_more())),
            final(self).items.deep_view() == if key == Key::Enter && old(self).asks_for_more() {
                old(self).items.deep_view().update(
                    old(self).items@.len() - 1,
                    old(self).items.deep_view().last().update(0, LOADING@),
                )
            } else {
                old(self).items.deep_view()
            },
    {
        match key {
            Key::Down => {
                self.next();
                false
            },
            Key::Up => {
                self.previous();
                false
            },
            Key::Enter => {
                match self.selected {
                    Some(i) => {
                        let len = self.items.len();
                        if i >= len - 1 {
                            let ghost rows = self.items.deep_view();
                            self.loading = true;
                            match self.items.pop() {
                                Some(cells) => {
                                    let mut cells = cells;
                                    cells.set(0, String::from_str(LOADING));
                                    assert(cells.deep_view() =~= rows.last().update(0, LOADING@));
                                    self.items.push(cells);
                                },
                                None => {},
                            }
                        }
                    },
                    None => {},
                }
                false
            },
            Key::Left | Key::Esc => {
                self.unselect();
                true
            },
            _ => false,
        }
    }
}

} // verus!
