//! The "search files here" strategy: the paths below one directory whose
//! names match the query.

use vstd::prelude::*;
use std::time::{Duration, Instant};
use crate::action::{Action, AppAction};
use crate::telescope_backend::{TelescopeResult, TelescopeSearch};

verus! {

/// std's `Instant`, carried through as an opaque value.
#[verifier::external_type_specification]
#[verifier::external_body]
pub struct ExInstant(Instant);

/// `Instant::now` reads the clock; nothing is known of what it returns.
pub assume_specification[ Instant::now ]() -> (now: Instant);

/// `Instant::elapsed` is the time since the instant; nothing is known of it.
pub assume_specification[ Instant::elapsed ](start: &Instant) -> (elapsed: Duration);

/// `Duration::as_millis` is the duration in whole milliseconds; nothing is
/// claimed of it.
pub assume_specification[ Duration::as_millis ](duration: &Duration) -> (millis: u128);

/// The most results that one search asks for.
pub const SEARCH_LIMIT: usize = 1000;

/// What the preview shows in place of a file that could not be read.
pub open spec fn unreadable_text() -> Seq<char> {
    "Could not read the file"@
}

/// The name of the strategy, as it starts the title.
pub open spec fn title_prefix() -> Seq<char> {
    "Search here - "@
}

/// The character for a decimal digit.
pub open spec fn digit(d: nat) -> char {
    if d == 0 {
        '0'
    } else if d == 1 {
        '1'
    } else if d == 2 {
        '2'
    } else if d == 3 {
        '3'
    } else if d == 4 {
        '4'
    } else if d == 5 {
        '5'
    } else if d == 6 {
        '6'
    } else if d == 7 {
        '7'
    } else if d == 8 {
        '8'
    } else {
        '9'
    }
}

/// A number in decimal, without leading zeros.
pub open spec fn decimal(n: nat) -> Seq<char>
    decreases n,
{
    if n < 10 {
        seq![digit(n)]
    } else {
        decimal(n / 10).push(digit(n % 10))
    }
}

/// The thousandths `f` of a second as a decimal fraction: a point and up to
/// three digits without trailing zeros, or nothing for zero.
pub open spec fn fraction(f: nat) -> Seq<char> {
    if f == 0 {
        Seq::<char>::empty()
    } else if f % 10 != 0 {
        seq!['.', digit(f / 100), digit(f / 10 % 10), digit(f % 10)]
    } else if f / 10 % 10 != 0 {
        seq!['.', digit(f / 100), digit(f / 10 % 10)]
    } else {
        seq!['.', digit(f / 100)]
    }
}

/// A time in milliseconds written in seconds: `1500` is `1.5`, `2000` is
/// `2`, `7` is `0.007`.
pub open spec fn seconds_text(millis: nat) -> Seq<char> {
    decimal(millis / 1000) + fraction(millis % 1000)
}

/// The title for a strategy whose last search took `timing` milliseconds.
pub open spec fn title_text(timing: Option<u128>) -> Seq<char> {
    title_prefix() + match timing {
        Some(millis) => seconds_text(millis as nat),
        None => Seq::<char>::empty(),
    }
}

/// The matched paths that a search keeps: the first `SEARCH_LIMIT` of them.
pub open spec fn kept(found: Seq<String>) -> Seq<String> {
    if found.len() <= SEARCH_LIMIT {
        found
    } else {
        found.take(SEARCH_LIMIT as int)
    }
}

/// The display lines for a list of matched paths: the paths themselves.
pub open spec fn labels_of(found: Seq<String>) -> Seq<Seq<char>> {
    Seq::new(found.len(), |i: int| found[i]@)
}

fn digit_char(d: u128) -> (c: char)
    requires
        d < 10,
    ensures
        c == digit(d as nat),
{
    if d == 0 {
        '0'
    } else if d == 1 {
        '1'
    } else if d == 2 {
        '2'
    } else if d == 3 {
        '3'
    } else if d == 4 {
        '4'
    } else if d == 5 {
        '5'
    } else if d == 6 {
        '6'
    } else if d == 7 {
        '7'
    } else if d == 8 {
        '8'
    } else {
        '9'
    }
}

fn push_decimal(text: &mut String, n: u128)
    ensures
        final(text)@ == old(text)@ + decimal(n as nat),
    decreases n,
{
    if n >= 10 {
        push_decimal(text, n / 10);
    }
    text.push(digit_char(n % 10));
}

/// Appends a time in milliseconds, written in seconds.
fn push_seconds(text: &mut String, millis: u128)
    ensures
        final(text)@ == old(text)@ + seconds_text(millis as nat),
{
    push_decimal(text, millis / 1000);
    let f = millis % 1000;
    if f != 0 {
        text.push('.');
        text.push(digit_char(f / 100));
        if f % 10 != 0 {
            text.push(digit_char(f / 10 % 10));
            text.push(digit_char(f % 10));
        } else if f / 10 % 10 != 0 {
            text.push(digit_char(f / 10 % 10));
        }
    }
}

/// One matched path.
#[derive(Debug, PartialEq)]
pub struct SearchFilesHereResult {
    pub path: String,
}

impl Clone for SearchFilesHereResult {
    fn clone(&self) -> (copy: Self)
        ensures
            copy == *self,
    {
        Self { path: self.path.clone() }
    }
}

impl SearchFilesHereResult {
    /// The result for the matched path `path`.
    pub fn new(path: String) -> (result: Self)
        ensures
            result.path == path,
    {
        Self { path }
    }

    /// What the preview of a result shows: the contents of its file, or a
    /// placeholder where the file could not be read.
    pub fn preview(contents: Option<String>) -> (text: String)
        ensures
            text@ == match contents {
                Some(read) => read@,
                None => unreadable_text(),
            },
    {
        match contents {
            Some(read) => read,
            None => "Could not read the file".to_owned(),
        }
    }
}

impl TelescopeResult for SearchFilesHereResult {
    open spec fn label(&self) -> Seq<char> {
        self.path@
    }

    fn display(&self) -> (line: String) {
        self.path.clone()
    }

    fn from(s: &str) -> (result: Self) {
        Self { path: s.to_owned() }
    }
}

/// The strategy's state: where it searches, what it found last, and how long
/// that took. The search itself is done by `finder`, which is given the
/// directory, the query and the most results to return, and hands back the
/// matched paths.
pub struct SearchFileshereSearch<F: Fn(String, String, usize) -> Vec<String>> {
    absolute_directory: String,
    results: Vec<SearchFilesHereResult>,
    last_search_timing: Option<u128>,
    finder: F,
    answered: Ghost<Option<Seq<char>>>,
}

impl<F: Fn(String, String, usize) -> Vec<String>> SearchFileshereSearch<F> {
    /// The directory below which the strategy searches.
    pub closed spec fn directory(&self) -> Seq<char> {
        self.absolute_directory@
    }

    /// The current results.
    pub closed spec fn results(&self) -> Seq<SearchFilesHereResult> {
        self.results@
    }

    /// The time the last search took, in milliseconds; none before the first
    /// search.
    pub closed spec fn timing(&self) -> Option<u128> {
        self.last_search_timing
    }

    /// The function that does the search.
    pub closed spec fn finder(&self) -> F {
        self.finder
    }

    /// Whether `found` is a possible outcome of the search for `query`.
    pub open spec fn finds(&self, query: String, found: Vec<String>) -> bool {
        exists|directory: String|
            directory@ == self.directory() && call_ensures(
                self.finder(),
                (directory, query, SEARCH_LIMIT),
                found,
            )
    }

    /// A strategy that searches below `absolute_directory` with `finder`
    /// and has no results yet. The finder must accept every input.
    pub fn new(absolute_directory: String, finder: F) -> (search: Self)
        requires
            forall|directory: String, query: String, limit: usize|
                call_requires(finder, (directory, query, limit)),
        ensures
            search.wf(),
            search.directory() == absolute_directory@,
            search.finder() == finder,
            search.results().len() == 0,
            search.timing() is None,
            search.answered() is None,
    {
        Self {
            absolute_directory,
            results: Vec::new(),
            last_search_timing: None,
            finder,
            answered: Ghost(None),
        }
    }

    /// Takes `found` as the answer to `query`, found in `elapsed_millis`
    /// milliseconds: the results become one per matched path, in order.
    pub fn record(&mut self, query: &String, found: Vec<String>, elapsed_millis: u128)
        ensures
            old(self).wf() ==> final(self).wf(),
            final(self).directory() == old(self).directory(),
            final(self).finder() == old(self).finder(),
            final(self).labels() == labels_of(found@),
            final(self).results().len() == found@.len(),
            forall|i: int|
                0 <= i < found@.len() ==> (#[trigger] final(self).results()[i]).path == found@[i],
            final(self).timing() == Some(elapsed_millis),
            final(self).answered() == Some(query@),
    {
        let mut results: Vec<SearchFilesHereResult> = Vec::new();
        let mut i: usize = 0;
        while i < found.len()
            invariant
                *self == *old(self),
                i <= found@.len(),
                results@.len() == i,
                forall|j: int| 0 <= j < i ==> (#[trigger] results@[j]).path == found@[j],
            decreases found@.len() - i,
        {
            results.push(SearchFilesHereResult::new(found[i].clone()));
            i += 1;
        }
        self.results = results;
        self.last_search_timing = Some(elapsed_millis);
        self.answered = Ghost(Some(query@));
        assert(self.finder() == old(self).finder());
    }
}

impl<F: Fn(String, String, usize) -> Vec<String> + Clone> Clone for SearchFileshereSearch<F> {
    /// A strategy with the same directory, results and timing, answering the
    /// same query, over a clone of the finder.
    fn clone(&self) -> (copy: Self)
        ensures
            copy.directory() == self.directory(),
            copy.results() == self.results(),
            copy.timing() == self.timing(),
            copy.answered() == self.answered(),
            cloned(self.finder(), copy.finder()),
    {
        let mut results: Vec<SearchFilesHereResult> = Vec::new();
        let mut i: usize = 0;
        while i < self.results.len()
            invariant
                i <= self.results@.len(),
                results@ == self.results@.take(i as int),
            decreases self.results@.len() - i,
        {
            results.push(self.results[i].clone());
            i += 1;
        }
        proof {
            assert(self.results@.take(self.results@.len() as int) =~= self.results@);
        }
        Self {
            absolute_directory: self.absolute_directory.clone(),
            results,
            last_search_timing: self.last_search_timing,
            finder: self.finder.clone(),
            answered: self.answered,
        }
    }
}

impl<F: Fn(String, String, usize) -> Vec<String>> TelescopeSearch for SearchFileshereSearch<F> {
    /// The finder accepts every input.
    open spec fn wf(&self) -> bool {
        forall|directory: String, query: String, limit: usize|
            call_requires(self.finder(), (directory, query, limit))
    }

    /// The paths of the results.
    open spec fn labels(&self) -> Seq<Seq<char>> {
        Seq::new(self.results().len(), |i: int| self.results()[i].path@)
    }

    closed spec fn answered(&self) -> Option<Seq<char>> {
        self.answered@
    }

    open spec fn title(&self) -> Seq<char> {
        title_text(self.timing())
    }

    /// Confirming a result reveals its path.
    open spec fn confirmation(&self, id: int) -> Option<Action> {
        Some(Action::AppAct(AppAction::ShowInFolder(self.results()[id].path)))
    }

    /// The preview of a result shows the file at its path.
    open spec fn preview_source(&self, id: int) -> Seq<char> {
        self.results()[id].path@
    }

    /// Runs the finder on the directory and `query`, times it, and records
    /// what it found, cut to the first `SEARCH_LIMIT` paths.
    fn search(&mut self, query: String)
        ensures
            final(self).directory() == old(self).directory(),
            final(self).finder() == old(self).finder(),
            exists|found: Vec<String>|
                old(self).finds(query, found) && final(self).labels() == labels_of(kept(found@)),
            final(self).labels().len() <= SEARCH_LIMIT,
            final(self).timing() is Some,
    {
        let start = Instant::now();
        let directory = self.absolute_directory.clone();
        assert(self.finder() == self.finder);
        let mut found = (self.finder)(directory, query.clone(), SEARCH_LIMIT);
        let elapsed = start.elapsed().as_millis();
        let ghost outcome = found;
        found.truncate(SEARCH_LIMIT);
        assert(found@ =~= kept(outcome@));
        self.record(&query, found, elapsed);
        proof {
            assert(old(self).finds(query, outcome));
        }
    }

    fn get_results_list(&self) -> (list: Vec<String>) {
        let mut list: Vec<String> = Vec::new();
        let mut i: usize = 0;
        while i < self.results.len()
            invariant
                i <= self.results@.len(),
                list@.len() == i,
                forall|j: int| 0 <= j < i ==> (#[trigger] list@[j])@ == self.results@[j].path@,
            decreases self.results@.len() - i,
        {
            list.push(self.results[i].display());
            i += 1;
        }
        list
    }

    fn confirm_result(&mut self, id: usize) -> (action: Option<Action>)
        ensures
            *final(self) == *old(self),
    {
        let result = &self.results[id];
        Some(Action::AppAct(AppAction::ShowInFolder(result.path.clone())))
    }

    fn preview_result(&self, some_id: Option<usize>) -> (source: Option<String>) {
        match some_id {
            Some(id) => Some(self.results[id].path.clone()),
            None => None,
        }
    }

    fn display(&self) -> (label: String) {
        let mut label = "Search here - ".to_owned();
        if let Some(millis) = self.last_search_timing {
            push_seconds(&mut label, millis);
        }
        label
    }

    fn n_results(&self) -> (count: usize) {
        self.results.len()
    }
}

/// What the strategy shows of its results, whatever its finder is: one
/// display line per result, which is the result's path; confirming a result
/// reveals its path, and its preview shows the file at its path; the title
/// is the name of the strategy with the time of the last search; and the
/// strategy is fit to be used where its finder accepts every input.
pub proof fn lemma_results_shown<F: Fn(String, String, usize) -> Vec<String>>(
    search: SearchFileshereSearch<F>,
)
    ensures
        search.labels().len() == search.results().len(),
        forall|id: int|
            0 <= id < search.results().len() ==> #[trigger] search.labels()[id]
                == search.results()[id].path@,
        forall|id: int| #[trigger]
            search.confirmation(id) == Some(
                Action::AppAct(AppAction::ShowInFolder(search.results()[id].path)),
            ),
        forall|id: int| #[trigger] search.preview_source(id) == search.results()[id].path@,
        search.title() == title_text(search.timing()),
        search.wf() <==> forall|directory: String, query: String, limit: usize|
            call_requires(search.finder(), (directory, query, limit)),
{
}

/// Searching twice gives the same display lines both times where the finder
/// found the same paths both times: the lines after a search are the paths
/// that the finder handed back, cut to the limit, whatever the results were
/// before.
pub proof fn lemma_same_matches_same_labels<F: Fn(String, String, usize) -> Vec<String>>(
    after_first: SearchFileshereSearch<F>,
    found_first: Vec<String>,
    after_second: SearchFileshereSearch<F>,
    found_second: Vec<String>,
)
    requires
        after_first.labels() == labels_of(kept(found_first@)),
        after_second.labels() == labels_of(kept(found_second@)),
        found_first@.len() == found_second@.len(),
        forall|i: int| 0 <= i < found_first@.len() ==> found_first@[i]@ == found_second@[i]@,
    ensures
        after_first.labels() == after_second.labels(),
{
    assert(labels_of(kept(found_first@)) =~= labels_of(kept(found_second@)));
}

} // verus!
