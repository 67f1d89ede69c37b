//! The site's data model: the static challenge list, one decoded flight
//! row, and the user-creation request/response pair.

use vstd::prelude::*;
use vstd::string::StringExecFns;

verus! {

/// One entry of the challenge index.
pub struct Challenge {
    pub title: String,
    pub description: String,
    pub href: String,
}

/// The mathematical content of a `Challenge`.
pub struct ChallengeView {
    pub title: Seq<char>,
    pub description: Seq<char>,
    pub href: Seq<char>,
}

impl View for Challenge {
    type V = ChallengeView;

    open spec fn view(&self) -> ChallengeView {
        ChallengeView { title: self.title@, description: self.description@, href: self.href@ }
    }
}

/// The views of a sequence of challenges.
pub open spec fn challenge_views(s: Seq<Challenge>) -> Seq<ChallengeView> {
    s.map_values(|c: Challenge| c@)
}

/// The fixed list the index page shows: which titles, descriptions and
/// links, in which order.
pub open spec fn spec_challenges() -> Seq<ChallengeView> {
    seq![
        ChallengeView { title: "SQLi One"@, description: "Your first go"@, href: "/sqli/one"@ },
        ChallengeView { title: "SQLi Two"@, description: "Your second go"@, href: "/"@ },
        ChallengeView { title: "SQLi Three"@, description: "Your third go"@, href: "/"@ },
        ChallengeView { title: "SQLi Four"@, description: "Your fourth go"@, href: "/"@ },
        ChallengeView { title: "SQLi Five"@, description: "Your fifth go"@, href: "/"@ },
        ChallengeView { title: "SQLi Six"@, description: "Your sixth go"@, href: "/"@ },
    ]
}

/// The six challenges of the index page, in order.
pub fn challenges() -> (r: Vec<Challenge>)
    ensures
        challenge_views(r@) == spec_challenges(),
{
    let mut v: Vec<Challenge> = Vec::new();
    v.push(Challenge {
        title: "SQLi One".to_owned(),
        description: "Your first go".to_owned(),
        href: "/sqli/one".to_owned(),
    });
    v.push(Challenge {
        title: "SQLi Two".to_owned(),
        description: "Your second go".to_owned(),
        href: "/".to_owned(),
    });
    v.push(Challenge {
        title: "SQLi Three".to_owned(),
        description: "Your third go".to_owned(),
        href: "/".to_owned(),
    });
    v.push(Challenge {
        title: "SQLi Four".to_owned(),
        description: "Your fourth go".to_owned(),
        href: "/".to_owned(),
    });
    v.push(Challenge {
        title: "SQLi Five".to_owned(),
        description: "Your fifth go".to_owned(),
        href: "/".to_owned(),
    });
    v.push(Challenge {
        title: "SQLi Six".to_owned(),
        description: "Your sixth go".to_owned(),
        href: "/".to_owned(),
    });
    proof {
        assert(challenge_views(v@) =~= spec_challenges());
    }
    v
}

/// One row decoded from the flight table; every field is kept as the text
/// the driver handed back, or the error text where a field failed to
/// decode.
pub struct Item {
    pub flight: String,
    pub tail_number: String,
    pub long: String,
    pub lat: String,
    pub manufacturer: String,
}

/// The mathematical content of an `Item`.
pub struct ItemView {
    pub flight: Seq<char>,
    pub tail_number: Seq<char>,
    pub long: Seq<char>,
    pub lat: Seq<char>,
    pub manufacturer: Seq<char>,
}

impl View for Item {
    type V = ItemView;

    open spec fn view(&self) -> ItemView {
        ItemView {
            flight: self.flight@,
            tail_number: self.tail_number@,
            long: self.long@,
            lat: self.lat@,
            manufacturer: self.manufacturer@,
        }
    }
}

/// The views of a sequence of items.
pub open spec fn item_views(s: Seq<Item>) -> Seq<ItemView> {
    s.map_values(|i: Item| i@)
}

/// A decoded field keeps its value, and a failed one falls back to the
/// error's text.
pub open spec fn spec_field_value(r: Result<Seq<char>, Seq<char>>) -> Seq<char> {
    match r {
        Ok(v) => v,
        Err(e) => e,
    }
}

/// The value of one column read: the decoded text, or the error text when
/// decoding failed.
pub fn field_value(r: Result<String, String>) -> (v: String)
    ensures
        v@ == spec_field_value(result_view(r)),
{
    match r {
        Ok(s) => s,
        Err(e) => e,
    }
}

/// Builds one row from the five column reads, each falling back to its
/// error text on its own.
pub fn make_item(
    flight: Result<String, String>,
    tail_number: Result<String, String>,
    long: Result<String, String>,
    lat: Result<String, String>,
    manufacturer: Result<String, String>,
) -> (item: Item)
    ensures
        item.flight@ == spec_field_value(result_view(flight)),
        item.tail_number@ == spec_field_value(result_view(tail_number)),
        item.long@ == spec_field_value(result_view(long)),
        item.lat@ == spec_field_value(result_view(lat)),
        item.manufacturer@ == spec_field_value(result_view(manufacturer)),
{
    Item {
        flight: field_value(flight),
        tail_number: field_value(tail_number),
        long: field_value(long),
        lat: field_value(lat),
        manufacturer: field_value(manufacturer),
    }
}

/// The view of a column read.
pub open spec fn result_view(r: Result<String, String>) -> Result<Seq<char>, Seq<char>> {
    match r {
        Ok(s) => Ok(s@),
        Err(e) => Err(e@),
    }
}

impl Item {
    /// The row's fields joined by single spaces.
    pub open spec fn spec_display_line(self) -> Seq<char> {
        self.flight@ + " "@ + self.tail_number@ + " "@ + self.long@ + " "@ + self.lat@ + " "@
            + self.manufacturer@
    }

    /// One line of text for the row: the five fields separated by spaces.
    pub fn display_line(&self) -> (r: String)
        ensures
            r@ == self.spec_display_line(),
    {
        let mut out: String = self.flight.clone();
        out.append(" ");
        out.append(self.tail_number.as_str());
        out.append(" ");
        out.append(self.long.as_str());
        out.append(" ");
        out.append(self.lat.as_str());
        out.append(" ");
        out.append(self.manufacturer.as_str());
        out
    }
}

/// A user-creation request: the name the caller asked for.
pub struct CreateUser {
    pub username: String,
}

/// The record the user endpoint fabricates.
pub struct User {
    pub id: u64,
    pub username: String,
}

/// The identifier every fabricated user is given.
pub const USER_ID: u64 = 1337;

/// Fabricates the response record: the fixed identifier together with the
/// requested name, unchanged.
pub fn create_user(req: CreateUser) -> (u: User)
    ensures
        u.id == USER_ID,
        u.username@ == req.username@,
{
    User { id: USER_ID, username: req.username }
}

} // verus!
