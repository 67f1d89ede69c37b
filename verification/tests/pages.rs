use sqli_practice::model::Item;
use sqli_practice::model::field_value;
use sqli_practice::model::make_item;
use sqli_practice::pages::render_db_error;
use sqli_practice::pages::render_hello;
use sqli_practice::routes::db_error_response;
use sqli_practice::routes::hello_response;
use sqli_practice::routes::home_response;
use sqli_practice::routes::sql_response;

#[test]
fn home_lists_all_six_challenge_titles() {
    let r = home_response();
    assert_eq!(r.status, 200);
    assert!(r.body.contains("SQLi One"));
    assert!(r.body.contains("SQLi Two"));
    assert!(r.body.contains("SQLi Three"));
    assert!(r.body.contains("SQLi Four"));
    assert!(r.body.contains("SQLi Five"));
    assert!(r.body.contains("SQLi Six"));
}

#[test]
fn hello_greets_the_world() {
    let r = hello_response();
    assert_eq!(r.status, 200);
    assert!(r.body.contains("world"));
}

#[test]
fn hello_renders_the_name_into_the_page() {
    let page = render_hello("tester");
    assert!(page.contains("Hello, tester!"));
}

#[test]
fn hello_escapes_html_in_the_name() {
    let page = render_hello("<script>");
    assert!(!page.contains("<script>"));
    assert!(page.contains("&lt;script&gt;"));
}

#[test]
fn db_error_body_keeps_the_prefix_and_message() {
    assert_eq!(render_db_error("no such table"), "DB Error: no such table");
    let r = db_error_response("syntax error");
    assert_eq!(r.status, 200);
    assert_eq!(r.body, "DB Error: syntax error");
}

#[test]
fn table_rows_come_out_in_the_given_order() {
    let items = vec![
        Item {
            flight: "AA1".to_string(),
            tail_number: "N100".to_string(),
            long: "1.0".to_string(),
            lat: "2.0".to_string(),
            manufacturer: "Boeing".to_string(),
        },
        Item {
            flight: "BB2".to_string(),
            tail_number: "N200".to_string(),
            long: "3.0".to_string(),
            lat: "4.0".to_string(),
            manufacturer: "Airbus".to_string(),
        },
    ];
    let r = sql_response(&items);
    assert_eq!(r.status, 200);
    let first = r.body.find("AA1").unwrap();
    let second = r.body.find("BB2").unwrap();
    assert!(first < second);
}

#[test]
fn field_value_falls_back_to_the_error_text() {
    assert_eq!(field_value(Ok("N747".to_string())), "N747");
    assert_eq!(field_value(Err("column decode failed".to_string())), "column decode failed");
}

#[test]
fn make_item_decodes_each_field_on_its_own() {
    let item = make_item(
        Ok("AA1".to_string()),
        Err("bad tail".to_string()),
        Ok("1.5".to_string()),
        Ok("2.5".to_string()),
        Ok("Cessna".to_string()),
    );
    assert_eq!(item.flight, "AA1");
    assert_eq!(item.tail_number, "bad tail");
    assert_eq!(item.manufacturer, "Cessna");
}

#[test]
fn display_line_joins_fields_with_spaces() {
    let item = Item {
        flight: "AA1".to_string(),
        tail_number: "N100".to_string(),
        long: "1.0".to_string(),
        lat: "2.0".to_string(),
        manufacturer: "Boeing".to_string(),
    };
    assert_eq!(item.display_line(), "AA1 N100 1.0 2.0 Boeing");
}
