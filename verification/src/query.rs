//! The vulnerable query builder. A search term is spliced verbatim into a
//! `LIKE '%…%'` clause with no escaping — that anti-pattern is the point
//! of the exercise, so the contract pins the spliced text down exactly and
//! a lemma records that any term, quotes and all, lands in the query
//! unaltered.

use vstd::prelude::*;
use vstd::string::StringExecFns;
use crate::text::contains_sub;
use crate::text::lemma_concat_contains;

verus! {

/// The query that selects every row of the flight table.
pub open spec fn select_all_query() -> Seq<char> {
    "Select * from local_flight_data"@
}

/// The text that precedes a spliced search term.
pub open spec fn like_prefix() -> Seq<char> {
    "Select * from local_flight_data where manufacturer LIKE '%"@
}

/// The text that follows a spliced search term.
pub open spec fn like_suffix() -> Seq<char> {
    "%';"@
}

/// The SQL text the search handler executes: select-all without a term,
/// and with one the term spliced verbatim between the `LIKE` quotes.
pub open spec fn spec_search_query(search: Option<Seq<char>>) -> Seq<char> {
    match search {
        None => select_all_query(),
        Some(term) => like_prefix() + term + like_suffix(),
    }
}

/// An empty search term is treated as no term at all; any other value is
/// kept unchanged.
pub open spec fn spec_normalize_search(search: Option<Seq<char>>) -> Option<Seq<char>> {
    match search {
        None => None,
        Some(term) => if term.len() == 0 {
            None
        } else {
            Some(term)
        },
    }
}

/// Maps an empty search string to no search, as the query-string decoder
/// of the site does.
pub fn normalize_search(search: Option<String>) -> (r: Option<String>)
    ensures
        match r {
            None => spec_normalize_search(option_view(search)) is None,
            Some(s) => spec_normalize_search(option_view(search)) == Some(s@),
        },
{
    match search {
        None => None,
        Some(term) => {
            if term.as_str().is_empty() {
                None
            } else {
                Some(term)
            }
        },
    }
}

/// The view of an optional search string.
pub open spec fn option_view(search: Option<String>) -> Option<Seq<char>> {
    match search {
        None => None,
        Some(s) => Some(s@),
    }
}

/// Builds the SQL text for a search: the deliberately vulnerable string
/// concatenation, spliced with no escaping whatsoever.
pub fn build_search_query(search: Option<&str>) -> (q: String)
    ensures
        q@ == spec_search_query(match search {
            None => None,
            Some(s) => Some(s@),
        }),
{
    match search {
        Some(term) => {
            let mut q: String =
                "Select * from local_flight_data where manufacturer LIKE '%".to_owned();
            q.append(term);
            q.append("%';");
            q
        },
        None => "Select * from local_flight_data".to_owned(),
    }
}

/// The injection is real: whatever the term, the built query contains it
/// verbatim — no character is escaped, dropped or doubled on the way into
/// the SQL text.
pub proof fn lemma_query_embeds_term(term: Seq<char>)
    ensures
        contains_sub(spec_search_query(Some(term)), term),
{
    lemma_concat_contains(like_prefix(), term, like_suffix());
}

} // verus!
