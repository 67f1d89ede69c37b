//! The search endpoint against a real in-memory database: the verified
//! query builder's output is executed by the same driver the site uses.

use sqli_practice::model::Item;
use sqli_practice::model::make_item;
use sqli_practice::query::build_search_query;
use sqli_practice::query::normalize_search;
use sqli_practice::routes::db_error_response;
use sqli_practice::routes::sql_response;
use sqlite::Connection;
use sqlite::State;

fn flight_db() -> Connection {
    let connection = sqlite::open(":memory:").unwrap();
    connection
        .execute(
            "CREATE TABLE local_flight_data (flight TEXT, tail_number TEXT, long TEXT, lat TEXT, manufacturer TEXT);",
        )
        .unwrap();
    connection
        .execute(
            "INSERT INTO local_flight_data VALUES
                ('UA100', 'N111', '-87.9', '41.9', 'Boeing 737'),
                ('AF200', 'F222', '2.55', '49.0', 'Airbus A320'),
                ('DL300', 'N333', '-84.4', '33.6', 'Boeing 747');",
        )
        .unwrap();
    connection
}

fn run_search(connection: &Connection, search: Option<String>) -> Result<Vec<Item>, String> {
    let normalized = normalize_search(search);
    let query = build_search_query(normalized.as_deref());
    let mut statement = connection.prepare(query).map_err(|e| e.to_string())?;
    let mut items: Vec<Item> = Vec::new();
    while let Ok(State::Row) = statement.next() {
        items.push(make_item(
            statement.read::<String, _>("flight").map_err(|e| e.to_string()),
            statement.read::<String, _>("tail_number").map_err(|e| e.to_string()),
            statement.read::<String, _>("long").map_err(|e| e.to_string()),
            statement.read::<String, _>("lat").map_err(|e| e.to_string()),
            statement.read::<String, _>("manufacturer").map_err(|e| e.to_string()),
        ));
    }
    Ok(items)
}

#[test]
fn no_search_returns_all_rows_in_insertion_order() {
    let connection = flight_db();
    let items = run_search(&connection, None).unwrap();
    assert_eq!(items.len(), 3);
    assert_eq!(items[0].flight, "UA100");
    assert_eq!(items[1].flight, "AF200");
    assert_eq!(items[2].flight, "DL300");
    let page = sql_response(&items);
    assert_eq!(page.status, 200);
    let first = page.body.find("UA100").unwrap();
    let second = page.body.find("AF200").unwrap();
    let third = page.body.find("DL300").unwrap();
    assert!(first < second && second < third);
}

#[test]
fn empty_search_is_treated_as_no_search() {
    let connection = flight_db();
    let items = run_search(&connection, Some(String::new())).unwrap();
    assert_eq!(items.len(), 3);
}

#[test]
fn search_filters_by_manufacturer_substring() {
    let connection = flight_db();
    let items = run_search(&connection, Some("Boeing".to_string())).unwrap();
    assert_eq!(items.len(), 2);
    assert_eq!(items[0].manufacturer, "Boeing 737");
    assert_eq!(items[1].manufacturer, "Boeing 747");
}

#[test]
fn search_misses_when_nothing_matches() {
    let connection = flight_db();
    let items = run_search(&connection, Some("Concorde".to_string())).unwrap();
    assert_eq!(items.len(), 0);
}

#[test]
fn injection_tautology_returns_every_row() {
    let connection = flight_db();
    let items = run_search(&connection, Some("' OR '1'='1".to_string())).unwrap();
    assert_eq!(items.len(), 3);
}

#[test]
fn broken_term_surfaces_as_db_error_page() {
    let connection = flight_db();
    let result = run_search(&connection, Some("x'".to_string()));
    let message = result.err().unwrap();
    let page = db_error_response(&message);
    assert_eq!(page.status, 200);
    assert!(page.body.starts_with("DB Error: "));
}
