//! Decisions of the landing screen's search input: when a keystroke or a
//! submitted line triggers a search, and which heading the screen shows for a
//! search state.  The surrounding widget plumbing — timers, redraws, event
//! routing — belongs to a presentation layer; these functions are the rules it
//! applies.

use vstd::prelude::*;
use vstd::string::StrSliceExecFns;

verus! {

/// A search shorter than this many characters is not worth running.
pub const MIN_SEARCH_LENGTH: usize = 2;

/// What the store is asked to do in reaction to the search input.
#[derive(Clone, Debug, PartialEq)]
pub enum SearchAction {
    /// Search for the keywords.
    Search(String),
    /// Clear the search and show the unfiltered catalog.
    ResetSearch,
}

/// The action taken when the debounce timer fires: keywords longer than
/// [`MIN_SEARCH_LENGTH`] start a search, an emptied input resets it, and
/// anything in between does nothing.
pub fn search_action_on_timer(keywords: String) -> (r: Option<SearchAction>)
    ensures
        keywords@.len() > MIN_SEARCH_LENGTH ==> (r matches Some(SearchAction::Search(k)) && k@
            == keywords@),
        keywords@.len() == 0 ==> r == Some(SearchAction::ResetSearch),
        (0 < keywords@.len() <= MIN_SEARCH_LENGTH) ==> r is None,
{
    let n = keywords.as_str().unicode_len();
    if n > MIN_SEARCH_LENGTH {
        Some(SearchAction::Search(keywords))
    } else if n == 0 {
        Some(SearchAction::ResetSearch)
    } else {
        None
    }
}

/// The action taken when the input line is submitted: any non-empty keywords
/// start a search at once, an empty line resets it.
pub fn search_action_on_submit(keywords: String) -> (r: SearchAction)
    ensures
        keywords@.len() > 0 ==> (r matches SearchAction::Search(k) && k@ == keywords@),
        keywords@.len() == 0 ==> r == SearchAction::ResetSearch,
{
    if keywords.as_str().unicode_len() > 0 {
        SearchAction::Search(keywords)
    } else {
        SearchAction::ResetSearch
    }
}

/// The heading shown above the model list.
#[derive(Clone, Debug, PartialEq)]
pub enum HeadingState {
    /// No heading: a search is under way or ended in an error.
    Hidden,
    /// A search result heading: how many models were found, for which keyword.
    Filtered(usize, String),
    /// The plain explore heading, with no filter applied.
    Unfiltered,
}

/// Which heading a search state shows: none while a search is pending or
/// failed, the result count and keyword when a keyword filter is in place,
/// and the plain heading otherwise.
pub fn heading_state(
    search_pending: bool,
    search_errored: bool,
    keyword: Option<String>,
    results_count: usize,
) -> (r: HeadingState)
    ensures
        (search_pending || search_errored) ==> r is Hidden,
        !(search_pending || search_errored) ==> {
            &&& keyword matches Some(k) ==> (r matches HeadingState::Filtered(n, kw) && n
                == results_count && kw@ == k@)
            &&& keyword is None ==> r == HeadingState::Unfiltered
        },
{
    if search_pending || search_errored {
        HeadingState::Hidden
    } else {
        match keyword {
            Some(k) => HeadingState::Filtered(results_count, k),
            None => HeadingState::Unfiltered,
        }
    }
}

} // verus!
