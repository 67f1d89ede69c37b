//! The page renderers: plain string templating for the hello page, the
//! challenge index and the search-results table, each pinned to an exact
//! specification of the produced HTML. Dynamic fields are HTML-escaped;
//! the static challenge data and the page skeletons are fixed text.

use vstd::prelude::*;
use vstd::string::StringExecFns;
use crate::escape::html_escape;
use crate::escape::html_escape_seq;
use crate::model::Challenge;
use crate::model::ChallengeView;
use crate::model::Item;
use crate::model::ItemView;
use crate::model::challenge_views;
use crate::model::item_views;
use crate::model::spec_challenges;

verus! {

/// The hello page before the greeted name.
pub open spec fn hello_header() -> Seq<char> {
    "<!DOCTYPE html><html><head><title>Hello</title><link rel=\"stylesheet\" href=\"/static/index.css\"/></head><body><h1>Hello, "@
}

/// The hello page after the greeted name.
pub open spec fn hello_footer() -> Seq<char> {
    "!</h1></body></html>"@
}

/// The hello page around a greeted name.
pub open spec fn hello_page_spec(name: Seq<char>) -> Seq<char> {
    hello_header() + html_escape_seq(name) + hello_footer()
}

/// Renders the hello page for `name`.
pub fn render_hello(name: &str) -> (r: String)
    ensures
        r@ == hello_page_spec(name@),
{
    let mut out: String =
        "<!DOCTYPE html><html><head><title>Hello</title><link rel=\"stylesheet\" href=\"/static/index.css\"/></head><body><h1>Hello, ".to_owned();
    let escaped = html_escape(name);
    out.append(escaped.as_str());
    out.append("!</h1></body></html>");
    out
}

/// One challenge entry of the index page.
pub open spec fn challenge_entry_spec(c: ChallengeView) -> Seq<char> {
    "<li class=\"challenge\"><a href=\""@ + html_escape_seq(c.href) + "\"><h2>"@
        + html_escape_seq(c.title) + "</h2><p>"@ + html_escape_seq(c.description)
        + "</p></a></li>"@
}

/// The challenge entries of the index page, in the order given.
pub open spec fn challenge_list_spec(cs: Seq<ChallengeView>) -> Seq<char>
    decreases cs.len(),
{
    if cs.len() == 0 {
        Seq::empty()
    } else {
        challenge_list_spec(cs.drop_last()) + challenge_entry_spec(cs.last())
    }
}

/// The index page before its challenge entries.
pub open spec fn index_header() -> Seq<char> {
    "<!DOCTYPE html><html><head><title>SQLi Practice</title><link rel=\"stylesheet\" href=\"/static/index.css\"/></head><body><h1>Challenges</h1><ul>"@
}

/// The index page after its challenge entries.
pub open spec fn index_footer() -> Seq<char> {
    "</ul></body></html>"@
}

/// The index page around its challenge entries.
pub open spec fn index_page_spec(cs: Seq<ChallengeView>) -> Seq<char> {
    index_header() + challenge_list_spec(cs) + index_footer()
}

/// The index page the site serves: the fixed six challenges.
pub open spec fn home_page_spec() -> Seq<char> {
    index_page_spec(spec_challenges())
}

/// Renders the challenge index for the given entries, in order.
pub fn render_index(challenges: &Vec<Challenge>) -> (r: String)
    ensures
        r@ == index_page_spec(challenge_views(challenges@)),
{
    let mut out: String =
        "<!DOCTYPE html><html><head><title>SQLi Practice</title><link rel=\"stylesheet\" href=\"/static/index.css\"/></head><body><h1>Challenges</h1><ul>".to_owned();
    let n: usize = challenges.len();
    let mut i: usize = 0;
    while i < n
        invariant
            n == challenges@.len(),
            i <= n,
            out@ == index_header() + challenge_list_spec(
                challenge_views(challenges@.subrange(0, i as int)),
            ),
        decreases n - i,
    {
        let c = &challenges[i];
        out.append("<li class=\"challenge\"><a href=\"");
        let href = html_escape(c.href.as_str());
        out.append(href.as_str());
        out.append("\"><h2>");
        let title = html_escape(c.title.as_str());
        out.append(title.as_str());
        out.append("</h2><p>");
        let description = html_escape(c.description.as_str());
        out.append(description.as_str());
        out.append("</p></a></li>");
        i = i + 1;
        proof {
            let pre = challenge_views(challenges@.subrange(0, i as int));
            assert(pre.drop_last() =~= challenge_views(challenges@.subrange(0, i - 1)));
            assert(pre.last() == challenges@[i - 1]@);
            assert(out@ =~= index_header() + challenge_list_spec(pre));
        }
    }
    proof {
        assert(challenges@.subrange(0, n as int) =~= challenges@);
    }
    out.append("</ul></body></html>");
    out
}

/// One table row of the results page.
pub open spec fn item_row_spec(item: ItemView) -> Seq<char> {
    "<tr><td>"@ + html_escape_seq(item.flight) + "</td><td>"@ + html_escape_seq(item.tail_number)
        + "</td><td>"@ + html_escape_seq(item.long) + "</td><td>"@ + html_escape_seq(item.lat)
        + "</td><td>"@ + html_escape_seq(item.manufacturer) + "</td></tr>"@
}

/// The table rows of the results page, in the order the rows arrived.
pub open spec fn item_rows_spec(items: Seq<ItemView>) -> Seq<char>
    decreases items.len(),
{
    if items.len() == 0 {
        Seq::empty()
    } else {
        item_rows_spec(items.drop_last()) + item_row_spec(items.last())
    }
}

/// The results page before its rows.
pub open spec fn sql_header() -> Seq<char> {
    "<!DOCTYPE html><html><head><title>SQLi One</title><link rel=\"stylesheet\" href=\"/static/sql1.css\"/></head><body><h1>Flight data</h1><table><tr><th>flight</th><th>tail_number</th><th>long</th><th>lat</th><th>manufacturer</th></tr>"@
}

/// The results page after its rows.
pub open spec fn sql_footer() -> Seq<char> {
    "</table></body></html>"@
}

/// The results page around its rows.
pub open spec fn sql_page_spec(items: Seq<ItemView>) -> Seq<char> {
    sql_header() + item_rows_spec(items) + sql_footer()
}

/// Renders one table row of the results page.
pub fn render_item_row(item: &Item) -> (r: String)
    ensures
        r@ == item_row_spec(item@),
{
    let mut out: String = "<tr><td>".to_owned();
    let flight = html_escape(item.flight.as_str());
    out.append(flight.as_str());
    out.append("</td><td>");
    let tail_number = html_escape(item.tail_number.as_str());
    out.append(tail_number.as_str());
    out.append("</td><td>");
    let long = html_escape(item.long.as_str());
    out.append(long.as_str());
    out.append("</td><td>");
    let lat = html_escape(item.lat.as_str());
    out.append(lat.as_str());
    out.append("</td><td>");
    let manufacturer = html_escape(item.manufacturer.as_str());
    out.append(manufacturer.as_str());
    out.append("</td></tr>");
    proof {
        assert(out@ =~= item_row_spec(item@));
    }
    out
}

/// Renders the search-results table, one row per item, in the order given.
pub fn render_sql(items: &Vec<Item>) -> (r: String)
    ensures
        r@ == sql_page_spec(item_views(items@)),
{
    let mut out: String =
        "<!DOCTYPE html><html><head><title>SQLi One</title><link rel=\"stylesheet\" href=\"/static/sql1.css\"/></head><body><h1>Flight data</h1><table><tr><th>flight</th><th>tail_number</th><th>long</th><th>lat</th><th>manufacturer</th></tr>".to_owned();
    let n: usize = items.len();
    let mut i: usize = 0;
    while i < n
        invariant
            n == items@.len(),
            i <= n,
            out@ == sql_header() + item_rows_spec(item_views(items@.subrange(0, i as int))),
        decreases n - i,
    {
        let row = render_item_row(&items[i]);
        out.append(row.as_str());
        i = i + 1;
        proof {
            let pre = item_views(items@.subrange(0, i as int));
            assert(pre.drop_last() =~= item_views(items@.subrange(0, i - 1)));
            assert(pre.last() == items@[i - 1]@);
            assert(out@ =~= sql_header() + item_rows_spec(pre));
        }
    }
    proof {
        assert(items@.subrange(0, n as int) =~= items@);
    }
    out.append("</table></body></html>");
    out
}

/// The plain-text body reported when the database refuses a query.
pub open spec fn db_error_spec(msg: Seq<char>) -> Seq<char> {
    "DB Error: "@ + msg
}

/// Renders the database-error body for `msg`.
pub fn render_db_error(msg: &str) -> (r: String)
    ensures
        r@ == db_error_spec(msg@),
{
    let mut out: String = "DB Error: ".to_owned();
    out.append(msg);
    out
}

} // verus!
