//! The search-backend capability, the selection over its results, and the
//! backend state that an overlay owns.

use vstd::prelude::*;
use ratatui::widgets::TableState;
use crate::action::Action;
use crate::sfs_telescope::SearchFileshereSearch;
use crate::telescope_query::TelescopeQuery;

verus! {

/// ratatui's `TableState`, carried through as an opaque value.
#[verifier::external_type_specification]
#[verifier::external_body]
pub struct ExTableState(TableState);

/// The row that a table state has selected.
pub uninterp spec fn selected_row(state: TableState) -> Option<usize>;

/// The first row that a table state shows.
pub uninterp spec fn row_offset(state: TableState) -> usize;

/// `TableState::default` starts with no row selected and shows from the
/// first row.
pub assume_specification[ <TableState as Default>::default ]() -> (state: TableState)
    ensures
        selected_row(state) is None,
        row_offset(state) == 0,
;

/// The derived `TableState::clone` copies the selected row and the offset.
pub assume_specification[ <TableState as Clone>::clone ](state: &TableState) -> (copy: TableState)
    ensures
        selected_row(copy) == selected_row(*state),
        row_offset(copy) == row_offset(*state),
;

/// The derived `TableState::eq` compares the selected row and the offset,
/// which are all that a table state holds.
pub assume_specification[ <TableState as PartialEq>::eq ](
    left: &TableState,
    right: &TableState,
) -> (same: bool)
    ensures
        same == (selected_row(*left) == selected_row(*right) && row_offset(*left) == row_offset(
            *right,
        )),
;

/// `TableState::selected` returns the selected row.
pub assume_specification[ TableState::selected ](state: &TableState) -> (row: Option<usize>)
    ensures
        row == selected_row(*state),
;

/// `TableState::select` makes `index` the selected row. With no row selected
/// the table shows from the first row again; otherwise the offset stays.
pub assume_specification[ TableState::select ](state: &mut TableState, index: Option<usize>)
    ensures
        selected_row(*final(state)) == index,
        row_offset(*final(state)) == if index is None {
            0
        } else {
            row_offset(*old(state))
        },
;

/// A selection that is fit to be shown or acted upon over `count` results:
/// none over an empty result set, an index below `count` otherwise.
pub open spec fn valid_selection(selection: Option<usize>, count: nat) -> bool {
    match selection {
        None => count == 0,
        Some(i) => i < count,
    }
}

/// The selection re-derived for `count` results: none over an empty result
/// set, the first result where nothing was selected, and the last result
/// where the old index lies beyond the end.
pub open spec fn normalized(selection: Option<usize>, count: usize) -> Option<usize> {
    if count == 0 {
        None
    } else {
        match selection {
            None => Some(0),
            Some(i) => if i < count {
                Some(i)
            } else {
                Some((count - 1) as usize)
            },
        }
    }
}

/// The selection after one step forward: from the last result to the first.
pub open spec fn next_selection(selection: Option<usize>, count: usize) -> Option<usize> {
    match normalized(selection, count) {
        None => None,
        Some(i) => if selection is None {
            Some(0)
        } else if i == count - 1 {
            Some(0)
        } else {
            Some((i + 1) as usize)
        },
    }
}

/// The selection after one step back: from the first result to the last.
pub open spec fn previous_selection(selection: Option<usize>, count: usize) -> Option<usize> {
    match normalized(selection, count) {
        None => None,
        Some(i) => if selection is None {
            Some(0)
        } else if i == 0 {
            Some((count - 1) as usize)
        } else {
            Some((i - 1) as usize)
        },
    }
}

/// The selection after a run of steps, `true` for a step forward and `false`
/// for a step back, the first step first.
pub open spec fn navigated(selection: Option<usize>, count: usize, steps: Seq<bool>) -> Option<
    usize,
>
    decreases steps.len(),
{
    if steps.len() == 0 {
        selection
    } else {
        let before = navigated(selection, count, steps.drop_last());
        if steps.last() {
            next_selection(before, count)
        } else {
            previous_selection(before, count)
        }
    }
}

/// Re-derives a selection for `count` results.
pub fn normalize_selection(selection: Option<usize>, count: usize) -> (fitted: Option<usize>)
    ensures
        fitted == normalized(selection, count),
        valid_selection(fitted, count as nat),
{
    if count == 0 {
        None
    } else {
        match selection {
            None => Some(0),
            Some(i) => if i < count {
                Some(i)
            } else {
                Some(count - 1)
            },
        }
    }
}

/// Moves a selection one step forward over `count` results.
pub fn step_forward(selection: Option<usize>, count: usize) -> (moved: Option<usize>)
    ensures
        moved == next_selection(selection, count),
        valid_selection(moved, count as nat),
{
    match (selection, normalize_selection(selection, count)) {
        (_, None) => None,
        (None, Some(_)) => Some(0),
        (Some(_), Some(i)) => if i == count - 1 {
            Some(0)
        } else {
            Some(i + 1)
        },
    }
}

/// Moves a selection one step back over `count` results.
pub fn step_back(selection: Option<usize>, count: usize) -> (moved: Option<usize>)
    ensures
        moved == previous_selection(selection, count),
        valid_selection(moved, count as nat),
{
    match (selection, normalize_selection(selection, count)) {
        (_, None) => None,
        (None, Some(_)) => Some(0),
        (Some(_), Some(i)) => if i == 0 {
            Some(count - 1)
        } else {
            Some(i - 1)
        },
    }
}

/// Whatever steps are taken, and from whatever selection, the selection
/// after at least one step lies within the results: it is none over an empty
/// result set and an index below the count otherwise. A selection that lay
/// within the results stays there over no steps too.
pub proof fn lemma_navigation_stays_within_results(
    selection: Option<usize>,
    count: usize,
    steps: Seq<bool>,
)
    ensures
        steps.len() > 0 || valid_selection(selection, count as nat) ==> valid_selection(
            navigated(selection, count, steps),
            count as nat,
        ),
        steps.len() > 0 && count == 0 ==> navigated(selection, count, steps) is None,
    decreases steps.len(),
{
    if steps.len() > 1 {
        lemma_navigation_stays_within_results(selection, count, steps.drop_last());
    }
}

/// Over a non-empty result set a step forward from the last result lands on
/// the first, a step back from the first lands on the last, and every other
/// step moves by exactly one.
pub proof fn lemma_navigation_wraps_at_the_ends(i: usize, count: usize)
    requires
        i < count,
    ensures
        next_selection(Some(i), count) == if i == count - 1 {
            Some(0usize)
        } else {
            Some((i + 1) as usize)
        },
        previous_selection(Some(i), count) == if i == 0 {
            Some((count - 1) as usize)
        } else {
            Some((i - 1) as usize)
        },
{
}

/// A search strategy that an overlay can drive. The overlay asks it to
/// search, reads the count and the labels of its current results, and has it
/// turn a chosen result into an action.
pub trait TelescopeSearch: Sized {
    /// Whether the strategy is fit to be used. Every method needs it and
    /// keeps it.
    spec fn wf(&self) -> bool;

    /// One display line per current result, in order.
    spec fn labels(&self) -> Seq<Seq<char>>;

    /// The query that the current results answer; none before the first
    /// search.
    spec fn answered(&self) -> Option<Seq<char>>;

    /// What `display` returns: the strategy's name with the time the last
    /// search took.
    spec fn title(&self) -> Seq<char>;

    /// The action that confirming the result at `id` gives.
    spec fn confirmation(&self, id: int) -> Option<Action>;

    /// The path whose contents preview the result at `id`.
    spec fn preview_source(&self, id: int) -> Seq<char>;

    /// Replaces the results by those for `query`.
    fn search(&mut self, query: String)
        requires
            old(self).wf(),
        ensures
            final(self).wf(),
            final(self).answered() == Some(query@),
    ;

    /// The display lines of the current results.
    fn get_results_list(&self) -> (list: Vec<String>)
        requires
            self.wf(),
        ensures
            list@.len() == self.labels().len(),
            forall|i: int| 0 <= i < list@.len() ==> (#[trigger] list@[i])@ == self.labels()[i],
    ;

    /// Turns the result at `id` into an action. The results stay as they
    /// are.
    fn confirm_result(&mut self, id: usize) -> (action: Option<Action>)
        requires
            old(self).wf(),
            id < old(self).labels().len(),
        ensures
            final(self).wf(),
            action == old(self).confirmation(id as int),
            final(self).labels() == old(self).labels(),
            final(self).answered() == old(self).answered(),
            final(self).title() == old(self).title(),
    ;

    /// The path to read for the preview of the result at `some_id`, or
    /// `None` where nothing is selected and the preview stays empty.
    fn preview_result(&self, some_id: Option<usize>) -> (source: Option<String>)
        requires
            self.wf(),
            some_id matches Some(id) ==> id < self.labels().len(),
        ensures
            match some_id {
                Some(id) => source matches Some(path) && path@ == self.preview_source(id as int),
                None => source is None,
            },
    ;

    /// A short title for the results.
    fn display(&self) -> (label: String)
        requires
            self.wf(),
        ensures
            label@ == self.title(),
    ;

    /// The number of current results.
    fn n_results(&self) -> (count: usize)
        requires
            self.wf(),
        ensures
            count == self.labels().len(),
    ;
}

/// Whether two searches count as the same: they do where they show the same
/// title, whatever their results are.
pub fn same_search<S: TelescopeSearch>(left: &S, right: &S) -> (same: bool)
    requires
        left.wf(),
        right.wf(),
    ensures
        same == (left.title() == right.title()),
{
    left.display() == right.display()
}

/// One search result: it has a display line and is made from a raw match.
pub trait TelescopeResult: Sized {
    /// The line shown for the result in the result list.
    spec fn label(&self) -> Seq<char>;

    /// The line shown for the result in the result list.
    fn display(&self) -> (line: String)
        ensures
            line@ == self.label(),
    ;

    /// The result for the raw match `s`; its display line is `s`.
    fn from(s: &str) -> (result: Self)
        ensures
            result.label() == s@,
    ;
}

/// What an overlay shows: the text of its panels and the row to highlight.
#[derive(Clone, Debug, PartialEq)]
pub struct Panels {
    /// The title of the query panel: the backend's title.
    pub query_title: String,
    /// The text of the query panel: the editable contents.
    pub query_text: String,
    /// The rows of the results panel.
    pub rows: Vec<String>,
    /// The row to highlight, if any.
    pub selected: Option<usize>,
    /// The path whose contents fill the preview panel; none where no row is
    /// selected.
    pub preview: Option<String>,
}

/// A query, the search that answers it, and the selection over the results.
#[derive(Debug)]
pub struct TelescopeBackend<S: TelescopeSearch> {
    pub query: TelescopeQuery,
    pub search: S,
    pub table_state: TableState,
}

impl<S: TelescopeSearch + Clone> Clone for TelescopeBackend<S> {
    /// A backend with the same query and selection over a clone of the
    /// search.
    fn clone(&self) -> (copy: Self)
        ensures
            copy.query == self.query,
            cloned(self.search, copy.search),
            copy.selection() == self.selection(),
            row_offset(copy.table_state) == row_offset(self.table_state),
    {
        TelescopeBackend {
            query: self.query.clone(),
            search: self.search.clone(),
            table_state: self.table_state.clone(),
        }
    }
}

impl<S: TelescopeSearch> TelescopeBackend<S> {
    /// The selected result, if any.
    pub open spec fn selection(&self) -> Option<usize> {
        selected_row(self.table_state)
    }

    /// The number of current results.
    pub open spec fn count(&self) -> usize {
        self.search.labels().len() as usize
    }

    /// Whether the search is fit to be used.
    pub open spec fn wf(&self) -> bool {
        self.search.wf()
    }

    /// Whether the table shows from the row it showed from in `before`, or
    /// from the first row where nothing is selected now.
    pub open spec fn shows_as(&self, before: &Self) -> bool {
        row_offset(self.table_state) == if self.selection() is None {
            0
        } else {
            row_offset(before.table_state)
        }
    }

    /// Whether the results answer the query as it stands now.
    pub open spec fn in_sync(&self) -> bool {
        self.search.answered() == Some(self.query.full_text())
    }

    /// A backend over `search` with an empty query and nothing selected.
    pub fn new(search: S) -> (backend: Self)
        requires
            search.wf(),
        ensures
            backend.wf(),
            backend.search == search,
            backend.query.full_text() == Seq::<char>::empty(),
            backend.selection() is None,
            row_offset(backend.table_state) == 0,
    {
        TelescopeBackend {
            query: TelescopeQuery::default(),
            search,
            table_state: TableState::default(),
        }
    }

    /// Whether two backends hold the same query text, show the same title
    /// and have the same table state: the same row selected and the same
    /// first row shown.
    pub open spec fn equals(&self, other: &Self) -> bool {
        &&& self.query.contents@ == other.query.contents@
        &&& self.query.prefix@ == other.query.prefix@
        &&& self.query.suffix@ == other.query.suffix@
        &&& self.search.title() == other.search.title()
        &&& self.selection() == other.selection()
        &&& row_offset(self.table_state) == row_offset(other.table_state)
    }

    /// Whether two backends hold the same query text, show the same title
    /// and have the same table state.
    pub fn eq(&self, other: &Self) -> (same: bool)
        requires
            self.wf(),
            other.wf(),
        ensures
            same == self.equals(other),
    {
        self.query.contents == other.query.contents && self.query.prefix == other.query.prefix
            && self.query.suffix == other.query.suffix && same_search(&self.search, &other.search)
            && self.table_state.eq(&other.table_state)
    }

    /// Re-derives the selection from the current number of results.
    pub fn clamp_selection(&mut self)
        requires
            old(self).wf(),
        ensures
            final(self).selection() == normalized(old(self).selection(), old(self).count()),
            row_offset(final(self).table_state) == if final(self).selection() is None {
                0
            } else {
                row_offset(old(self).table_state)
            },
            valid_selection(final(self).selection(), old(self).search.labels().len()),
            final(self).search == old(self).search,
            final(self).query == old(self).query,
    {
        let count = self.search.n_results();
        let fitted = normalize_selection(self.table_state.selected(), count);
        self.table_state.select(fitted);
    }

    /// Turns the selected result into an action. The selection is re-derived
    /// first, so a stale index is never handed to the search; with no result
    /// there is no action and the search is not touched.
    pub fn confirm_result(&mut self) -> (action: Option<Action>)
        requires
            old(self).wf(),
        ensures
            final(self).wf(),
            final(self).selection() == normalized(old(self).selection(), old(self).count()),
            row_offset(final(self).table_state) == if final(self).selection() is None {
                0
            } else {
                row_offset(old(self).table_state)
            },
            action == match final(self).selection() {
                Some(id) => old(self).search.confirmation(id as int),
                None => None,
            },
            final(self).selection() is None ==> final(self).search == old(self).search,
            final(self).search.labels() == old(self).search.labels(),
            final(self).search.answered() == old(self).search.answered(),
            final(self).search.title() == old(self).search.title(),
            final(self).query == old(self).query,
    {
        self.clamp_selection();
        if let Some(id) = self.table_state.selected() {
            return self.search.confirm_result(id);
        }
        None
    }

    /// Selects the next result, the first one after the last.
    pub fn next_result(&mut self)
        requires
            old(self).wf(),
        ensures
            final(self).selection() == next_selection(old(self).selection(), old(self).count()),
            row_offset(final(self).table_state) == if final(self).selection() is None {
                0
            } else {
                row_offset(old(self).table_state)
            },
            valid_selection(final(self).selection(), old(self).search.labels().len()),
            final(self).search == old(self).search,
            final(self).query == old(self).query,
    {
        let n_results = self.search.n_results();
        let moved = step_forward(self.table_state.selected(), n_results);
        self.table_state.select(moved);
    }

    /// Selects the previous result, the last one before the first.
    pub fn previous_result(&mut self)
        requires
            old(self).wf(),
        ensures
            final(self).selection() == previous_selection(
                old(self).selection(),
                old(self).count(),
            ),
            row_offset(final(self).table_state) == if final(self).selection() is None {
                0
            } else {
                row_offset(old(self).table_state)
            },
            valid_selection(final(self).selection(), old(self).search.labels().len()),
            final(self).search == old(self).search,
            final(self).query == old(self).query,
    {
        let n_results = self.search.n_results();
        let moved = step_back(self.table_state.selected(), n_results);
        self.table_state.select(moved);
    }

    /// Has the search answer `query`, then re-derives the selection for the
    /// new results.
    pub fn update_search_query(&mut self, query: String)
        requires
            old(self).wf(),
        ensures
            final(self).wf(),
            final(self).search.answered() == Some(query@),
            final(self).selection() == normalized(old(self).selection(), final(self).count()),
            row_offset(final(self).table_state) == if final(self).selection() is None {
                0
            } else {
                row_offset(old(self).table_state)
            },
            valid_selection(final(self).selection(), final(self).search.labels().len()),
            final(self).query == old(self).query,
    {
        self.search.search(query);
        self.clamp_selection();
    }

    /// What to show now. The selection is re-derived first, so the
    /// highlighted row and the preview are never stale.
    pub fn draw(&mut self) -> (panels: Panels)
        requires
            old(self).wf(),
        ensures
            final(self).selection() == normalized(old(self).selection(), old(self).count()),
            row_offset(final(self).table_state) == if final(self).selection() is None {
                0
            } else {
                row_offset(old(self).table_state)
            },
            final(self).search == old(self).search,
            final(self).query == old(self).query,
            panels.selected == final(self).selection(),
            valid_selection(panels.selected, panels.rows@.len()),
            panels.rows@.len() == old(self).search.labels().len(),
            forall|i: int|
                0 <= i < panels.rows@.len() ==> (#[trigger] panels.rows@[i])@ == old(
                    self,
                ).search.labels()[i],
            panels.query_title@ == old(self).search.title(),
            panels.query_text@ == old(self).query.contents@,
            match panels.selected {
                Some(id) => panels.preview matches Some(path) && path@ == old(
                    self,
                ).search.preview_source(id as int),
                None => panels.preview is None,
            },
    {
        self.clamp_selection();
        let selected = self.table_state.selected();
        Panels {
            query_title: self.search.display(),
            query_text: self.query.contents.clone(),
            rows: self.search.get_results_list(),
            selected,
            preview: self.search.preview_result(selected),
        }
    }
}

impl<F: Fn(String, String, usize) -> Vec<String>> TelescopeBackend<SearchFileshereSearch<F>> {
    /// Whether the backend is a fresh one that searches files below
    /// `absolute_directory` with `finder`.
    pub open spec fn is_new_sfs(&self, absolute_directory: String, finder: F) -> bool {
        &&& self.wf()
        &&& self.search.directory() == absolute_directory@
        &&& self.search.finder() == finder
        &&& self.search.results().len() == 0
        &&& self.search.timing() is None
        &&& self.search.answered() is None
        &&& self.query.full_text() == Seq::<char>::empty()
        &&& self.selection() is None
        &&& row_offset(self.table_state) == 0
    }

    /// A backend that searches files below `absolute_directory` with
    /// `finder`, with an empty query and nothing selected.
    pub fn new_sfs(absolute_directory: String, finder: F) -> (backend: Self)
        requires
            forall|directory: String, query: String, limit: usize|
                call_requires(finder, (directory, query, limit)),
        ensures
            backend.is_new_sfs(absolute_directory, finder),
    {
        Self {
            query: TelescopeQuery::default(),
            search: SearchFileshereSearch::new(absolute_directory, finder),
            table_state: TableState::default(),
        }
    }
}

} // verus!
