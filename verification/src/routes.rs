//! The router and the response builders: which (method, path) pair maps
//! to which handler, and exactly what status, content type and body each
//! handler produces.

use vstd::prelude::*;
use vstd::string::StringExecFns;
use crate::escape::hex_char;
use crate::escape::json_escape;
use crate::escape::json_escape_seq;
use crate::model::CreateUser;
use crate::model::Item;
use crate::model::USER_ID;
use crate::model::User;
use crate::model::challenges;
use crate::model::item_views;
use crate::pages::db_error_spec;
use crate::pages::hello_page_spec;
use crate::pages::home_page_spec;
use crate::pages::render_db_error;
use crate::pages::render_hello;
use crate::pages::render_index;
use crate::pages::render_sql;
use crate::pages::sql_page_spec;
use crate::text::push_char;
use crate::text::str_eq;

verus! {

/// The handler a request is dispatched to.
#[derive(Clone, Copy, Debug, PartialEq, Eq, Structural)]
pub enum Route {
    /// `GET /` — the challenge index.
    Home,
    /// `GET /hello` — the greeting page.
    Hello,
    /// `POST /users` — the JSON user-creation endpoint.
    CreateUser,
    /// `GET /sqli/one` — the vulnerable search.
    SqliOne,
    /// `GET /static/index.css`.
    IndexCss,
    /// `GET /static/sql1.css`.
    SqlCss,
    /// Anything else — the catch-all.
    NotFound,
}

/// Which route a (method, path) pair reaches: the six registered routes,
/// and the catch-all for every other pair.
pub open spec fn spec_route(method: Seq<char>, path: Seq<char>) -> Route {
    if method == "GET"@ && path == "/"@ {
        Route::Home
    } else if method == "GET"@ && path == "/hello"@ {
        Route::Hello
    } else if method == "POST"@ && path == "/users"@ {
        Route::CreateUser
    } else if method == "GET"@ && path == "/sqli/one"@ {
        Route::SqliOne
    } else if method == "GET"@ && path == "/static/index.css"@ {
        Route::IndexCss
    } else if method == "GET"@ && path == "/static/sql1.css"@ {
        Route::SqlCss
    } else {
        Route::NotFound
    }
}

/// Dispatches a request by method and path.
pub fn route_of(method: &str, path: &str) -> (r: Route)
    ensures
        r == spec_route(method@, path@),
{
    proof {
        reveal_strlit("GET");
        reveal_strlit("POST");
        assert("GET"@.len() == 3);
        assert("POST"@.len() == 4);
    }
    if str_eq(method, "GET") {
        if str_eq(path, "/") {
            Route::Home
        } else if str_eq(path, "/hello") {
            Route::Hello
        } else if str_eq(path, "/sqli/one") {
            Route::SqliOne
        } else if str_eq(path, "/static/index.css") {
            Route::IndexCss
        } else if str_eq(path, "/static/sql1.css") {
            Route::SqlCss
        } else {
            Route::NotFound
        }
    } else if str_eq(method, "POST") && str_eq(path, "/users") {
        Route::CreateUser
    } else {
        Route::NotFound
    }
}

/// A finished response: status code, content type and body.
pub struct HttpResponse {
    pub status: u16,
    pub content_type: String,
    pub body: String,
}

/// The content type of the HTML pages.
pub open spec fn html_content_type() -> Seq<char> {
    "text/html; charset=utf-8"@
}

/// The content type of the JSON endpoint.
pub open spec fn json_content_type() -> Seq<char> {
    "application/json"@
}

/// The content type of the plain-text catch-all.
pub open spec fn text_content_type() -> Seq<char> {
    "text/plain; charset=utf-8"@
}

/// The content type of the style sheets.
pub open spec fn css_content_type() -> Seq<char> {
    "text/css"@
}

/// The challenge index: OK, HTML, the six fixed challenges in order.
pub fn home_response() -> (r: HttpResponse)
    ensures
        r.status == 200,
        r.content_type@ == html_content_type(),
        r.body@ == home_page_spec(),
{
    let list = challenges();
    HttpResponse {
        status: 200,
        content_type: "text/html; charset=utf-8".to_owned(),
        body: render_index(&list),
    }
}

/// The greeting page: OK, HTML, greeting the name `world`.
pub fn hello_response() -> (r: HttpResponse)
    ensures
        r.status == 200,
        r.content_type@ == html_content_type(),
        r.body@ == hello_page_spec("world"@),
{
    HttpResponse {
        status: 200,
        content_type: "text/html; charset=utf-8".to_owned(),
        body: render_hello("world"),
    }
}

/// The decimal digits of a number, most significant first.
pub open spec fn dec_digits(n: nat) -> Seq<char>
    decreases n,
{
    if n < 10 {
        seq![hex_char(n as int)]
    } else {
        dec_digits(n / 10) + seq![hex_char((n % 10) as int)]
    }
}

/// Formats a number in decimal.
pub fn u64_to_string(n: u64) -> (r: String)
    ensures
        r@ == dec_digits(n as nat),
    decreases n,
{
    if n < 10 {
        let mut out = String::new();
        push_char(&mut out, crate::escape::hex_digit(n as u8));
        proof {
            assert(out@ =~= dec_digits(n as nat));
        }
        out
    } else {
        let mut out = u64_to_string(n / 10);
        push_char(&mut out, crate::escape::hex_digit((n % 10) as u8));
        proof {
            assert(out@ =~= dec_digits(n as nat));
        }
        out
    }
}

/// The JSON body the user endpoint answers with.
pub open spec fn user_json_spec(id: nat, username: Seq<char>) -> Seq<char> {
    "{\"id\":"@ + dec_digits(id) + ",\"username\":\""@ + json_escape_seq(username) + "\"}"@
}

/// Serialises a user record as JSON.
pub fn user_json(u: &User) -> (r: String)
    ensures
        r@ == user_json_spec(u.id as nat, u.username@),
{
    let mut out: String = "{\"id\":".to_owned();
    let id = u64_to_string(u.id);
    out.append(id.as_str());
    out.append(",\"username\":\"");
    let name = json_escape(u.username.as_str());
    out.append(name.as_str());
    out.append("\"}");
    proof {
        assert(out@ =~= user_json_spec(u.id as nat, u.username@));
    }
    out
}

/// The user endpoint: Created, JSON, echoing the requested name under the
/// fixed identifier.
pub fn create_user_response(req: CreateUser) -> (r: HttpResponse)
    ensures
        r.status == 201,
        r.content_type@ == json_content_type(),
        r.body@ == user_json_spec(USER_ID as nat, req.username@),
{
    let user = crate::model::create_user(req);
    let body = user_json(&user);
    HttpResponse { status: 201, content_type: "application/json".to_owned(), body }
}

/// The search results: OK, HTML, one table row per item in row order.
pub fn sql_response(items: &Vec<Item>) -> (r: HttpResponse)
    ensures
        r.status == 200,
        r.content_type@ == html_content_type(),
        r.body@ == sql_page_spec(item_views(items@)),
{
    HttpResponse {
        status: 200,
        content_type: "text/html; charset=utf-8".to_owned(),
        body: render_sql(items),
    }
}

/// A refused query: the error text behind a fixed prefix, served as a
/// page of its own — with status OK, exactly as the site does.
pub fn db_error_response(msg: &str) -> (r: HttpResponse)
    ensures
        r.status == 200,
        r.content_type@ == html_content_type(),
        r.body@ == db_error_spec(msg@),
{
    HttpResponse {
        status: 200,
        content_type: "text/html; charset=utf-8".to_owned(),
        body: render_db_error(msg),
    }
}

/// The catch-all body.
pub open spec fn not_found_body_spec() -> Seq<char> {
    "nothing to see here"@
}

/// The catch-all: Not Found with its fixed plain-text body.
pub fn not_found_response() -> (r: HttpResponse)
    ensures
        r.status == 404,
        r.content_type@ == text_content_type(),
        r.body@ == not_found_body_spec(),
{
    HttpResponse {
        status: 404,
        content_type: "text/plain; charset=utf-8".to_owned(),
        body: "nothing to see here".to_owned(),
    }
}

/// The style sheet of the index and hello pages.
pub open spec fn index_css_spec() -> Seq<char> {
    "body { font-family: sans-serif; margin: 2em; background: #f7f7f7; } h1 { color: #222; } ul { list-style: none; padding: 0; } .challenge { background: #fff; border: 1px solid #ddd; margin: 0.5em 0; padding: 0.5em 1em; } .challenge a { text-decoration: none; color: inherit; }"@
}

/// The style sheet of the results page.
pub open spec fn sql_css_spec() -> Seq<char> {
    "body { font-family: sans-serif; margin: 2em; background: #f7f7f7; } table { border-collapse: collapse; background: #fff; } th, td { border: 1px solid #ccc; padding: 0.3em 0.8em; } th { background: #eee; }"@
}

/// The index style sheet: OK, CSS, a fixed non-empty body.
pub fn index_css_response() -> (r: HttpResponse)
    ensures
        r.status == 200,
        r.content_type@ == css_content_type(),
        r.body@ == index_css_spec(),
        r.body@.len() > 0,
{
    proof {
        reveal_strlit(
            "body { font-family: sans-serif; margin: 2em; background: #f7f7f7; } h1 { color: #222; } ul { list-style: none; padding: 0; } .challenge { background: #fff; border: 1px solid #ddd; margin: 0.5em 0; padding: 0.5em 1em; } .challenge a { text-decoration: none; color: inherit; }",
        );
    }
    HttpResponse {
        status: 200,
        content_type: "text/css".to_owned(),
        body: "body { font-family: sans-serif; margin: 2em; background: #f7f7f7; } h1 { color: #222; } ul { list-style: none; padding: 0; } .challenge { background: #fff; border: 1px solid #ddd; margin: 0.5em 0; padding: 0.5em 1em; } .challenge a { text-decoration: none; color: inherit; }".to_owned(),
    }
}

/// The results style sheet: OK, CSS, a fixed non-empty body.
pub fn sql_css_response() -> (r: HttpResponse)
    ensures
        r.status == 200,
        r.content_type@ == css_content_type(),
        r.body@ == sql_css_spec(),
        r.body@.len() > 0,
{
    proof {
        reveal_strlit(
            "body { font-family: sans-serif; margin: 2em; background: #f7f7f7; } table { border-collapse: collapse; background: #fff; } th, td { border: 1px solid #ccc; padding: 0.3em 0.8em; } th { background: #eee; }",
        );
    }
    HttpResponse {
        status: 200,
        content_type: "text/css".to_owned(),
        body: "body { font-family: sans-serif; margin: 2em; background: #f7f7f7; } table { border-collapse: collapse; background: #fff; } th, td { border: 1px solid #ccc; padding: 0.3em 0.8em; } th { background: #eee; }".to_owned(),
    }
}

/// The responses that need no request data: every route but the user
/// endpoint and the search.
pub fn static_response(route: Route) -> (r: Option<HttpResponse>)
    ensures
        match route {
            Route::Home => r is Some && r->0.status == 200 && r->0.body@ == home_page_spec()
                && r->0.content_type@ == html_content_type(),
            Route::Hello => r is Some && r->0.status == 200 && r->0.body@ == hello_page_spec(
                "world"@,
            ) && r->0.content_type@ == html_content_type(),
            Route::IndexCss => r is Some && r->0.status == 200 && r->0.body@ == index_css_spec()
                && r->0.content_type@ == css_content_type(),
            Route::SqlCss => r is Some && r->0.status == 200 && r->0.body@ == sql_css_spec()
                && r->0.content_type@ == css_content_type(),
            Route::NotFound => r is Some && r->0.status == 404 && r->0.body@
                == not_found_body_spec() && r->0.content_type@ == text_content_type(),
            Route::CreateUser => r is None,
            Route::SqliOne => r is None,
        },
{
    match route {
        Route::Home => Some(home_response()),
        Route::Hello => Some(hello_response()),
        Route::IndexCss => Some(index_css_response()),
        Route::SqlCss => Some(sql_css_response()),
        Route::NotFound => Some(not_found_response()),
        Route::CreateUser => None,
        Route::SqliOne => None,
    }
}

} // verus!
