//! The handlers. Each one has two halves with the storage between them: from
//! the request to what is asked of the storage, and from what the storage
//! answered to the response.

use crate::command::{Command, CommandView};
use crate::json::{array_json, record_json, to_json, to_json_array, views};
use crate::number::{parse_i32, parse_i32_spec};
use crate::product::{Product, ProductView};
use crate::request::{get_id, id_segment};
use crate::response::{Response, ResponseView};
use crate::route::{route, route_of, Route};
use vstd::prelude::*;

verus! {

/// What to do next for a request: ask the storage, or answer at once.
#[derive(Debug, Clone, PartialEq, Eq)]
pub enum Step {
    Run(Command),
    Reply(Response),
}

/// A step as a mathematical value.
pub enum StepView {
    Run(CommandView),
    Reply(ResponseView),
}

/// What the storage answered: that it could not be reached or could not run
/// the statement, how many records the statement changed, or the records that
/// it found.
#[derive(Debug, Clone, PartialEq, Eq)]
pub enum Outcome {
    Failed,
    Affected(u64),
    Rows(Vec<Product>),
}

/// An answer of the storage as a mathematical value.
pub enum OutcomeView {
    Failed,
    Affected(nat),
    Rows(Seq<ProductView>),
}

impl View for Step {
    type V = StepView;

    open spec fn view(&self) -> StepView {
        match *self {
            Step::Run(command) => StepView::Run(command@),
            Step::Reply(response) => StepView::Reply(response@),
        }
    }
}

impl View for Outcome {
    type V = OutcomeView;

    open spec fn view(&self) -> OutcomeView {
        match *self {
            Outcome::Failed => OutcomeView::Failed,
            Outcome::Affected(n) => OutcomeView::Affected(n as nat),
            Outcome::Rows(rows) => OutcomeView::Rows(views(rows@)),
        }
    }
}

/// The view of a record that may be missing.
pub open spec fn payload_view(payload: Option<Product>) -> Option<ProductView> {
    match payload {
        Some(record) => Some(record@),
        None => None,
    }
}

/// The number in the path of `request`, where its third piece is one.
pub open spec fn path_number(request: Seq<char>) -> Option<int> {
    match parse_i32_spec(id_segment(request)) {
        Some(v) => Some(v as int),
        None => None,
    }
}

/// Creating: the record's name and price are stored, and an identifier that
/// came with them is dropped. Without a record there is nothing to store.
pub open spec fn create_step(payload: Option<ProductView>) -> StepView {
    match payload {
        Some(record) => StepView::Run(CommandView::Insert { name: record.name, price: record.price }),
        None => StepView::Reply(ResponseView::error()),
    }
}

/// Reading one record: the one whose identifier the path gives.
pub open spec fn read_one_step(request: Seq<char>) -> StepView {
    match path_number(request) {
        Some(id) => StepView::Run(CommandView::SelectOne { id }),
        None => StepView::Reply(ResponseView::error()),
    }
}

/// Reading every record.
pub open spec fn read_all_step() -> StepView {
    StepView::Run(CommandView::SelectAll)
}

/// Reading by price: the records whose price is less than the number that
/// the path gives.
pub open spec fn read_by_price_step(request: Seq<char>) -> StepView {
    match path_number(request) {
        Some(price) => StepView::Run(CommandView::SelectBelow { price }),
        None => StepView::Reply(ResponseView::error()),
    }
}

/// Updating: the record whose identifier the path gives gets the name and
/// the price of the record that was sent.
pub open spec fn update_step(request: Seq<char>, payload: Option<ProductView>) -> StepView {
    match (path_number(request), payload) {
        (Some(id), Some(record)) => StepView::Run(
            CommandView::Update { id, name: record.name, price: record.price },
        ),
        _ => StepView::Reply(ResponseView::error()),
    }
}

/// Deleting: the record whose identifier the path gives.
pub open spec fn delete_step(request: Seq<char>) -> StepView {
    match path_number(request) {
        Some(id) => StepView::Run(CommandView::Delete { id }),
        None => StepView::Reply(ResponseView::error()),
    }
}

/// The response to a request that goes to no handler.
pub open spec fn unknown_route() -> ResponseView {
    ResponseView::not_found("404 Not found"@)
}

/// The step for `request`, taken by the handler that its route names.
/// `payload` is the record that the body of `request` holds, or nothing where
/// the body holds none.
pub open spec fn step_of(request: Seq<char>, payload: Option<ProductView>) -> StepView {
    match route_of(request) {
        Route::Create => create_step(payload),
        Route::ReadOne => read_one_step(request),
        Route::ReadAll => read_all_step(),
        Route::ReadByPrice => read_by_price_step(request),
        Route::Update => update_step(request, payload),
        Route::Delete => delete_step(request),
        Route::Unknown => StepView::Reply(unknown_route()),
    }
}

/// The response to a request for which the storage was asked `command` and
/// answered `outcome`. An answer of another kind than the command calls for
/// counts as a failure.
pub open spec fn reply_of(command: CommandView, outcome: OutcomeView) -> ResponseView {
    match (command, outcome) {
        (CommandView::Insert { .. }, OutcomeView::Affected(_)) => ResponseView::ok(
            "Product created"@,
        ),
        (CommandView::SelectOne { .. }, OutcomeView::Rows(rows)) => if rows.len() == 1 {
            ResponseView::ok(record_json(rows[0]))
        } else {
            ResponseView::not_found("Product not found"@)
        },
        (CommandView::SelectAll, OutcomeView::Rows(rows)) => ResponseView::ok(array_json(rows)),
        (CommandView::SelectBelow { .. }, OutcomeView::Rows(rows)) => ResponseView::ok(
            array_json(rows),
        ),
        (CommandView::Update { .. }, OutcomeView::Affected(_)) => ResponseView::ok(
            "Product updated"@,
        ),
        (CommandView::Delete { .. }, OutcomeView::Affected(changed)) => if changed == 0 {
            ResponseView::not_found("User not found"@)
        } else {
            ResponseView::ok("Product deleted"@)
        },
        _ => ResponseView::error(),
    }
}

/// The number in the path of `request`.
fn get_number(request: &str) -> (number: Option<i32>)
    ensures
        match number {
            Some(v) => path_number(request@) == Some(v as int),
            None => path_number(request@) is None,
        },
{
    parse_i32(get_id(request))
}

/// The first half of creating a record.
pub fn handle_post_request(payload: Option<Product>) -> (step: Step)
    ensures
        step@ == create_step(payload_view(payload)),
{
    match payload {
        Some(record) => Step::Run(Command::Insert { name: record.name, price: record.price }),
        None => Step::Reply(Response::error()),
    }
}

/// The first half of reading one record.
pub fn handle_get_request(request: &str) -> (step: Step)
    ensures
        step@ == read_one_step(request@),
{
    match get_number(request) {
        Some(id) => Step::Run(Command::SelectOne { id }),
        None => Step::Reply(Response::error()),
    }
}

/// The first half of reading every record.
pub fn handle_get_all_request() -> (step: Step)
    ensures
        step@ == read_all_step(),
{
    Step::Run(Command::SelectAll)
}

/// The first half of reading the records below a price.
pub fn handle_price_get_request(request: &str) -> (step: Step)
    ensures
        step@ == read_by_price_step(request@),
{
    match get_number(request) {
        Some(price) => Step::Run(Command::SelectBelow { price }),
        None => Step::Reply(Response::error()),
    }
}

/// The first half of updating a record.
pub fn handle_put_request(request: &str, payload: Option<Product>) -> (step: Step)
    ensures
        step@ == update_step(request@, payload_view(payload)),
{
    match (get_number(request), payload) {
        (Some(id), Some(record)) => Step::Run(
            Command::Update { id, name: record.name, price: record.price },
        ),
        _ => Step::Reply(Response::error()),
    }
}

/// The first half of deleting a record.
pub fn handle_delete_request(request: &str) -> (step: Step)
    ensures
        step@ == delete_step(request@),
{
    match get_number(request) {
        Some(id) => Step::Run(Command::Delete { id }),
        None => Step::Reply(Response::error()),
    }
}

/// The first half of serving a client: the step for what it sent. `payload`
/// is the record that the body of `request` holds, or nothing where the body
/// holds none.
pub fn handle_client(request: &str, payload: Option<Product>) -> (step: Step)
    ensures
        step@ == step_of(request@, payload_view(payload)),
{
    match route(request) {
        Route::Create => handle_post_request(payload),
        Route::ReadOne => handle_get_request(request),
        Route::ReadAll => handle_get_all_request(),
        Route::ReadByPrice => handle_price_get_request(request),
        Route::Update => handle_put_request(request, payload),
        Route::Delete => handle_delete_request(request),
        Route::Unknown => Step::Reply(Response::not_found("404 Not found")),
    }
}

/// The second half of serving a client: the response, once the storage was
/// asked `command` and answered `outcome`.
pub fn respond(command: &Command, outcome: &Outcome) -> (response: Response)
    ensures
        response@ == reply_of(command@, outcome@),
{
    match (command, outcome) {
        (Command::Insert { .. }, Outcome::Affected(_)) => Response::ok(
            String::from_str("Product created"),
        ),
        (Command::SelectOne { .. }, Outcome::Rows(rows)) => {
            if rows.len() == 1 {
                Response::ok(to_json(&rows[0]))
            } else {
                Response::not_found("Product not found")
            }
        },
        (Command::SelectAll, Outcome::Rows(rows)) => Response::ok(to_json_array(rows)),
        (Command::SelectBelow { .. }, Outcome::Rows(rows)) => Response::ok(to_json_array(rows)),
        (Command::Update { .. }, Outcome::Affected(_)) => Response::ok(
            String::from_str("Product updated"),
        ),
        (Command::Delete { .. }, Outcome::Affected(changed)) => {
            if *changed == 0 {
                Response::not_found("User not found")
            } else {
                Response::ok(String::from_str("Product deleted"))
            }
        },
        _ => Response::error(),
    }
}

} // verus!
