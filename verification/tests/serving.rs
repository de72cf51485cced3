use product_api::command::{
    Command, Param, CREATE_TABLE, DELETE, INSERT, SELECT_ALL, SELECT_BELOW, SELECT_ONE, UPDATE,
};
use product_api::handler::{
    handle_client, handle_delete_request, handle_get_all_request, handle_get_request,
    handle_post_request, handle_price_get_request, handle_put_request, respond, Outcome, Step,
};
use product_api::json::{quote, to_json, to_json_array, write_record};
use product_api::product::Product;
use product_api::response::{Response, INTERNAL_SERVER_ERROR, NOT_FOUND, OK_RESPONSE};
use product_api::route::{route, Route};

fn product(id: Option<i32>, name: &str, price: i32) -> Product {
    Product { id, name: name.to_string(), price }
}

fn response(status_line: &str, content: &str) -> Response {
    Response { status_line: status_line.to_string(), content: content.to_string() }
}

fn failure() -> Step {
    Step::Reply(response("HTTP/1.1 500 INTERNAL SERVER ERROR\r\n\r\n", "Error"))
}

#[test]
fn status_lines_are_the_fixed_texts() {
    assert_eq!(OK_RESPONSE, "HTTP/1.1 200 OK\r\nContent-Type: application/json\r\n\r\n");
    assert_eq!(NOT_FOUND, "HTTP/1.1 404 NOT FOUND\r\n\r\n");
    assert_eq!(INTERNAL_SERVER_ERROR, "HTTP/1.1 500 INTERNAL SERVER ERROR\r\n\r\n");
}

#[test]
fn responses_are_built_from_the_fixed_texts() {
    assert_eq!(Response::ok("[]".to_string()), response(OK_RESPONSE, "[]"));
    assert_eq!(Response::not_found("gone"), response(NOT_FOUND, "gone"));
    assert_eq!(Response::error(), response(INTERNAL_SERVER_ERROR, "Error"));
}

#[test]
fn response_text_is_status_line_then_content() {
    assert_eq!(
        Response::ok("Product created".to_string()).to_text(),
        "HTTP/1.1 200 OK\r\nContent-Type: application/json\r\n\r\nProduct created"
    );
    assert_eq!(
        Response::not_found("Product not found").to_text(),
        "HTTP/1.1 404 NOT FOUND\r\n\r\nProduct not found"
    );
    assert_eq!(Response::error().to_text(), "HTTP/1.1 500 INTERNAL SERVER ERROR\r\n\r\nError");
    assert_eq!(response("", "").to_text(), "");
}

#[test]
fn each_beginning_has_its_route() {
    assert_eq!(route("POST /products HTTP/1.1\r\n\r\n{}"), Route::Create);
    assert_eq!(route("GET /products/5 HTTP/1.1"), Route::ReadOne);
    assert_eq!(route("GET /products HTTP/1.1"), Route::ReadAll);
    assert_eq!(route("GET /price/100 HTTP/1.1"), Route::ReadByPrice);
    assert_eq!(route("PUT /products/5 HTTP/1.1"), Route::Update);
    assert_eq!(route("DELETE /products/5 HTTP/1.1"), Route::Delete);
}

#[test]
fn only_create_and_update_read_a_record() {
    assert!(Route::Create.reads_record());
    assert!(Route::Update.reads_record());
    assert!(!Route::ReadOne.reads_record());
    assert!(!Route::ReadAll.reads_record());
    assert!(!Route::ReadByPrice.reads_record());
    assert!(!Route::Delete.reads_record());
    assert!(!Route::Unknown.reads_record());
    assert_eq!(
        handle_client("GET /products/5 HTTP/1.1\r\n\r\n", Some(product(None, "x", 1))),
        handle_client("GET /products/5 HTTP/1.1\r\n\r\n", None)
    );
    assert_eq!(
        handle_client("DELETE /products/5 HTTP/1.1\r\n\r\n", Some(product(None, "x", 1))),
        Step::Run(Command::Delete { id: 5 })
    );
}

#[test]
fn other_requests_have_no_route() {
    assert_eq!(route(""), Route::Unknown);
    assert_eq!(route("GET / HTTP/1.1"), Route::Unknown);
    assert_eq!(route("GET /price HTTP/1.1"), Route::Unknown);
    assert_eq!(route("PUT /products HTTP/1.1"), Route::Unknown);
    assert_eq!(route("DELETE /products HTTP/1.1"), Route::Unknown);
    assert_eq!(route("PATCH /products/1 HTTP/1.1"), Route::Unknown);
    assert_eq!(route("get /products HTTP/1.1"), Route::Unknown);
    assert_eq!(route(" GET /products HTTP/1.1"), Route::Unknown);
    assert_eq!(route("POST /product"), Route::Unknown);
}

#[test]
fn one_record_is_tried_before_all_records() {
    assert_eq!(route("GET /products/5"), Route::ReadOne);
    assert_eq!(route("GET /products/"), Route::ReadOne);
    assert_eq!(route("GET /products"), Route::ReadAll);
    assert_eq!(route("GET /products HTTP/1.1\r\n\r\n"), Route::ReadAll);
    assert_eq!(route("GET /products?x=/1"), Route::ReadAll);
    assert_eq!(
        handle_client("GET /products/5 HTTP/1.1\r\n\r\n", None),
        Step::Run(Command::SelectOne { id: 5 })
    );
    assert_eq!(handle_client("GET /products HTTP/1.1\r\n\r\n", None), Step::Run(Command::SelectAll));
}

#[test]
fn a_route_is_a_beginning_and_no_more() {
    assert_eq!(route("POST /products/9"), Route::Create);
    assert_eq!(route("POST /productsabc"), Route::Create);
    assert_eq!(route("GET /productsabc"), Route::ReadAll);
}

#[test]
fn unknown_route_is_answered_at_once() {
    assert_eq!(
        handle_client("GET /nothing HTTP/1.1\r\n\r\n", None),
        Step::Reply(response("HTTP/1.1 404 NOT FOUND\r\n\r\n", "404 Not found"))
    );
    assert_eq!(
        handle_client("", Some(product(None, "x", 1))),
        Step::Reply(response(NOT_FOUND, "404 Not found"))
    );
}

#[test]
fn create_stores_name_and_price() {
    assert_eq!(
        handle_post_request(Some(product(None, "Widget", 10))),
        Step::Run(Command::Insert { name: "Widget".to_string(), price: 10 })
    );
    assert_eq!(
        handle_client(
            "POST /products HTTP/1.1\r\n\r\n{\"name\":\"Widget\",\"price\":10}",
            Some(product(None, "Widget", 10))
        ),
        Step::Run(Command::Insert { name: "Widget".to_string(), price: 10 })
    );
}

#[test]
fn create_drops_an_identifier_that_was_sent() {
    assert_eq!(
        handle_post_request(Some(product(Some(77), "Gadget", -3))),
        Step::Run(Command::Insert { name: "Gadget".to_string(), price: -3 })
    );
}

#[test]
fn create_without_a_record_fails() {
    assert_eq!(handle_post_request(None), failure());
    assert_eq!(handle_client("POST /products HTTP/1.1\r\n\r\n{\"name\":", None), failure());
}

#[test]
fn read_one_asks_for_the_identifier() {
    assert_eq!(
        handle_get_request("GET /products/5 HTTP/1.1\r\n\r\n"),
        Step::Run(Command::SelectOne { id: 5 })
    );
    assert_eq!(
        handle_get_request("GET /products/-12 HTTP/1.1"),
        Step::Run(Command::SelectOne { id: -12 })
    );
}

#[test]
fn read_one_without_a_number_fails() {
    assert_eq!(handle_get_request("GET /products/abc HTTP/1.1"), failure());
    assert_eq!(handle_get_request("GET /products/ HTTP/1.1"), failure());
    assert_eq!(handle_get_request("GET /products/2147483648 HTTP/1.1"), failure());
    assert_eq!(handle_client("GET /products/1.5 HTTP/1.1", None), failure());
}

#[test]
fn read_all_asks_for_every_record() {
    assert_eq!(handle_get_all_request(), Step::Run(Command::SelectAll));
    assert_eq!(handle_client("GET /products", None), Step::Run(Command::SelectAll));
}

#[test]
fn read_by_price_asks_for_the_threshold() {
    assert_eq!(
        handle_price_get_request("GET /price/100 HTTP/1.1\r\n\r\n"),
        Step::Run(Command::SelectBelow { price: 100 })
    );
    assert_eq!(
        handle_client("GET /price/0 HTTP/1.1\r\n\r\n", None),
        Step::Run(Command::SelectBelow { price: 0 })
    );
}

#[test]
fn read_by_price_without_a_number_fails() {
    assert_eq!(handle_price_get_request("GET /price/cheap HTTP/1.1"), failure());
    assert_eq!(handle_client("GET /price/ HTTP/1.1", None), failure());
}

#[test]
fn update_sets_name_and_price_of_the_identifier() {
    assert_eq!(
        handle_put_request("PUT /products/3 HTTP/1.1\r\n\r\n{}", Some(product(Some(9), "Bolt", 2))),
        Step::Run(Command::Update { id: 3, name: "Bolt".to_string(), price: 2 })
    );
    assert_eq!(
        handle_client("PUT /products/3 HTTP/1.1\r\n\r\n{}", Some(product(None, "Bolt", 2))),
        Step::Run(Command::Update { id: 3, name: "Bolt".to_string(), price: 2 })
    );
}

#[test]
fn update_without_number_or_record_fails() {
    assert_eq!(handle_put_request("PUT /products/3 HTTP/1.1", None), failure());
    assert_eq!(handle_put_request("PUT /products/x HTTP/1.1", Some(product(None, "Bolt", 2))), failure());
    assert_eq!(handle_put_request("PUT /products/x HTTP/1.1", None), failure());
}

#[test]
fn delete_asks_for_the_identifier() {
    assert_eq!(
        handle_delete_request("DELETE /products/8 HTTP/1.1"),
        Step::Run(Command::Delete { id: 8 })
    );
    assert_eq!(handle_client("DELETE /products/8 HTTP/1.1", None), Step::Run(Command::Delete { id: 8 }));
}

#[test]
fn delete_without_a_number_fails() {
    assert_eq!(handle_delete_request("DELETE /products/eight HTTP/1.1"), failure());
}

#[test]
fn statements_take_every_value_as_a_parameter() {
    assert_eq!(INSERT, "INSERT INTO products (name,price) VALUES ($1,$2)");
    assert_eq!(SELECT_ONE, "SELECT * FROM products WHERE id=$1");
    assert_eq!(SELECT_ALL, "SELECT * FROM products");
    assert_eq!(SELECT_BELOW, "SELECT * FROM products WHERE price<$1");
    assert_eq!(UPDATE, "UPDATE products SET name = $1 , price = $2 WHERE id = $3");
    assert_eq!(DELETE, "DELETE FROM products WHERE id=$1");
    assert_eq!(
        CREATE_TABLE,
        "CREATE TABLE IF NOT EXISTS products (id SERIAL PRIMARY KEY, name VARCHAR NOT NULL, price INT NOT NULL)"
    );
}

#[test]
fn each_command_has_its_statement() {
    assert_eq!(Command::Insert { name: "a".to_string(), price: 1 }.statement(), INSERT);
    assert_eq!(Command::SelectOne { id: 1 }.statement(), SELECT_ONE);
    assert_eq!(Command::SelectAll.statement(), SELECT_ALL);
    assert_eq!(Command::SelectBelow { price: 1 }.statement(), SELECT_BELOW);
    assert_eq!(Command::Update { id: 1, name: "a".to_string(), price: 1 }.statement(), UPDATE);
    assert_eq!(Command::Delete { id: 1 }.statement(), DELETE);
}

#[test]
fn each_command_has_its_parameters() {
    assert_eq!(
        Command::Insert { name: "a'; DROP TABLE products; --".to_string(), price: 1 }.parameters(),
        vec![Param::Text("a'; DROP TABLE products; --".to_string()), Param::Int(1)]
    );
    assert_eq!(Command::SelectOne { id: 4 }.parameters(), vec![Param::Int(4)]);
    assert_eq!(Command::SelectAll.parameters(), Vec::<Param>::new());
    assert_eq!(Command::SelectBelow { price: 50 }.parameters(), vec![Param::Int(50)]);
    assert_eq!(
        Command::Update { id: 7, name: "n".to_string(), price: 9 }.parameters(),
        vec![Param::Text("n".to_string()), Param::Int(9), Param::Int(7)]
    );
    assert_eq!(Command::Delete { id: 4 }.parameters(), vec![Param::Int(4)]);
}

#[test]
fn selects_are_queries() {
    assert!(Command::SelectOne { id: 1 }.is_query());
    assert!(Command::SelectAll.is_query());
    assert!(Command::SelectBelow { price: 1 }.is_query());
    assert!(!Command::Insert { name: "a".to_string(), price: 1 }.is_query());
    assert!(!Command::Update { id: 1, name: "a".to_string(), price: 1 }.is_query());
    assert!(!Command::Delete { id: 1 }.is_query());
}

#[test]
fn quote_writes_a_json_string() {
    assert_eq!(quote("Widget"), "\"Widget\"");
    assert_eq!(quote(""), "\"\"");
    assert_eq!(quote("a\"b"), "\"a\\\"b\"");
    assert_eq!(quote("a\\b"), "\"a\\\\b\"");
    assert_eq!(quote("line\nbreak\ttab\r"), "\"line\\nbreak\\ttab\\r\"");
    assert_eq!(quote("\u{1}\u{1f}"), "\"\\u0001\\u001f\"");
    assert_eq!(quote("caf\u{e9} \u{1f600}/"), "\"caf\u{e9} \u{1f600}/\"");
}

#[test]
fn quote_reads_back_as_the_text() {
    for text in ["Widget", "", "a\"b\\c", "\u{0}\u{8}\u{c}\n", "\u{7f}\u{2028}", "{\"id\":1}"] {
        let back: String = serde_json::from_str(&quote(text)).unwrap();
        assert_eq!(back, text);
    }
}

#[test]
fn record_with_a_quoted_name() {
    assert_eq!(write_record(Some(1), "\"Widget\"", 10), "{\"id\":1,\"name\":\"Widget\",\"price\":10}");
    assert_eq!(write_record(None, "\"\"", -5), "{\"id\":null,\"name\":\"\",\"price\":-5}");
    assert_eq!(write_record(Some(-2), "x", 0), "{\"id\":-2,\"name\":x,\"price\":0}");
}

#[test]
fn record_as_json() {
    assert_eq!(to_json(&product(Some(1), "Widget", 10)), "{\"id\":1,\"name\":\"Widget\",\"price\":10}");
    assert_eq!(to_json(&product(None, "Widget", 10)), "{\"id\":null,\"name\":\"Widget\",\"price\":10}");
    assert_eq!(
        to_json(&product(Some(i32::MIN), "say \"hi\"", i32::MAX)),
        "{\"id\":-2147483648,\"name\":\"say \\\"hi\\\"\",\"price\":2147483647}"
    );
}

#[test]
fn record_as_json_reads_back() {
    let record = product(Some(42), "a \"quoted\" \\ name\n", -17);
    let value: serde_json::Value = serde_json::from_str(&to_json(&record)).unwrap();
    let members = value.as_object().unwrap();
    assert_eq!(members.len(), 3);
    assert_eq!(members.get("id").unwrap().as_i64(), Some(42));
    assert_eq!(members.get("name").unwrap().as_str(), Some("a \"quoted\" \\ name\n"));
    assert_eq!(members.get("price").unwrap().as_i64(), Some(-17));
}

#[test]
fn records_as_json_array() {
    assert_eq!(to_json_array(&vec![]), "[]");
    assert_eq!(
        to_json_array(&vec![product(Some(1), "Widget", 10)]),
        "[{\"id\":1,\"name\":\"Widget\",\"price\":10}]"
    );
    assert_eq!(
        to_json_array(&vec![
            product(Some(1), "Widget", 10),
            product(Some(2), "Gadget", 20),
            product(Some(3), "Bolt", 0)
        ]),
        "[{\"id\":1,\"name\":\"Widget\",\"price\":10},{\"id\":2,\"name\":\"Gadget\",\"price\":20},{\"id\":3,\"name\":\"Bolt\",\"price\":0}]"
    );
}

#[test]
fn created_is_reported() {
    let command = Command::Insert { name: "Widget".to_string(), price: 10 };
    assert_eq!(respond(&command, &Outcome::Affected(1)), response(OK_RESPONSE, "Product created"));
    assert_eq!(respond(&command, &Outcome::Affected(0)), response(OK_RESPONSE, "Product created"));
}

#[test]
fn one_record_is_answered_as_an_object() {
    assert_eq!(
        respond(&Command::SelectOne { id: 1 }, &Outcome::Rows(vec![product(Some(1), "Widget", 10)])),
        response(OK_RESPONSE, "{\"id\":1,\"name\":\"Widget\",\"price\":10}")
    );
}

#[test]
fn absent_record_is_not_found() {
    assert_eq!(
        respond(&Command::SelectOne { id: 404 }, &Outcome::Rows(vec![])),
        response("HTTP/1.1 404 NOT FOUND\r\n\r\n", "Product not found")
    );
}

#[test]
fn more_than_one_record_for_an_identifier_is_not_found() {
    assert_eq!(
        respond(
            &Command::SelectOne { id: 1 },
            &Outcome::Rows(vec![product(Some(1), "a", 1), product(Some(1), "b", 2)])
        ),
        response(NOT_FOUND, "Product not found")
    );
}

#[test]
fn listings_are_answered_as_arrays() {
    let rows = vec![product(Some(1), "Widget", 10), product(Some(2), "Gadget", 20)];
    let body = "[{\"id\":1,\"name\":\"Widget\",\"price\":10},{\"id\":2,\"name\":\"Gadget\",\"price\":20}]";
    assert_eq!(respond(&Command::SelectAll, &Outcome::Rows(rows.clone())), response(OK_RESPONSE, body));
    assert_eq!(
        respond(&Command::SelectBelow { price: 30 }, &Outcome::Rows(rows)),
        response(OK_RESPONSE, body)
    );
    assert_eq!(respond(&Command::SelectAll, &Outcome::Rows(vec![])), response(OK_RESPONSE, "[]"));
    assert_eq!(
        respond(&Command::SelectBelow { price: 0 }, &Outcome::Rows(vec![])),
        response(OK_RESPONSE, "[]")
    );
}

#[test]
fn updated_is_reported_whatever_was_changed() {
    let command = Command::Update { id: 3, name: "Bolt".to_string(), price: 2 };
    assert_eq!(respond(&command, &Outcome::Affected(1)), response(OK_RESPONSE, "Product updated"));
    assert_eq!(respond(&command, &Outcome::Affected(0)), response(OK_RESPONSE, "Product updated"));
}

#[test]
fn deleted_is_reported_where_a_record_went() {
    assert_eq!(
        respond(&Command::Delete { id: 3 }, &Outcome::Affected(1)),
        response(OK_RESPONSE, "Product deleted")
    );
    assert_eq!(
        respond(&Command::Delete { id: 3 }, &Outcome::Affected(u64::MAX)),
        response(OK_RESPONSE, "Product deleted")
    );
}

#[test]
fn deleting_nothing_is_not_found() {
    assert_eq!(
        respond(&Command::Delete { id: 3 }, &Outcome::Affected(0)),
        response("HTTP/1.1 404 NOT FOUND\r\n\r\n", "User not found")
    );
}

#[test]
fn storage_failure_is_the_failure_response() {
    let commands = [
        Command::Insert { name: "a".to_string(), price: 1 },
        Command::SelectOne { id: 1 },
        Command::SelectAll,
        Command::SelectBelow { price: 1 },
        Command::Update { id: 1, name: "a".to_string(), price: 1 },
        Command::Delete { id: 1 },
    ];
    for command in commands {
        assert_eq!(
            respond(&command, &Outcome::Failed),
            response("HTTP/1.1 500 INTERNAL SERVER ERROR\r\n\r\n", "Error")
        );
    }
}

#[test]
fn answer_of_the_wrong_kind_is_a_failure() {
    let rows = Outcome::Rows(vec![product(Some(1), "a", 1)]);
    let count = Outcome::Affected(1);
    assert_eq!(respond(&Command::Insert { name: "a".to_string(), price: 1 }, &rows), Response::error());
    assert_eq!(respond(&Command::Update { id: 1, name: "a".to_string(), price: 1 }, &rows), Response::error());
    assert_eq!(respond(&Command::Delete { id: 1 }, &rows), Response::error());
    assert_eq!(respond(&Command::SelectOne { id: 1 }, &count), Response::error());
    assert_eq!(respond(&Command::SelectAll, &count), Response::error());
    assert_eq!(respond(&Command::SelectBelow { price: 1 }, &count), Response::error());
}
