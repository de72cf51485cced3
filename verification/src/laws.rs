//! What holds of the handlers whatever the request and whatever the storage
//! answers.

use crate::command::{CommandView, ParamView};
use crate::handler::{path_number, reply_of, step_of, OutcomeView, StepView};
use crate::json::{array_json, id_text, is_plain, record_json, records_text};
use crate::number::int_text;
use crate::product::ProductView;
use crate::response::ResponseView;
use crate::route::{route_of, Route};
use crate::request::{body_text, id_segment, up_to_path_end};
use crate::text::{
    find, find_space, has_prefix, is_space, lemma_find_is, lemma_find_range,
    lemma_find_space_range, lemma_split_from, occurs_at, split,
};
use vstd::prelude::*;

verus! {

/// Whether `pattern` stands somewhere in `text`.
pub open spec fn contains_text(text: Seq<char>, pattern: Seq<char>) -> bool {
    exists|at: int| occurs_at(text, pattern, at)
}

/// The first position at or after `from` that holds `/` or whitespace, or
/// the length of `text` where there is none.
pub open spec fn find_stop(text: Seq<char>, from: int) -> int
    decreases text.len() - from,
{
    if from >= text.len() {
        text.len() as int
    } else if 0 <= from && (text[from] == '/' || is_space(text[from])) {
        from
    } else {
        find_stop(text, from + 1)
    }
}

/// What stands in `text` before its first `/` or whitespace.
pub open spec fn path_word(text: Seq<char>) -> Seq<char> {
    text.take(find_stop(text, 0))
}

/// A request that begins with `GET /products/` goes to the handler that
/// reads one record and never to the one that reads all; a request that
/// begins with `GET /products` and goes on otherwise than with `/` goes to
/// the handler that reads all and never to the one that reads one.
pub proof fn lemma_one_record_before_all(request: Seq<char>, payload: Option<ProductView>)
    ensures
        has_prefix(request, "GET /products/"@) ==> route_of(request) == Route::ReadOne && step_of(
            request,
            payload,
        ) != StepView::Run(CommandView::SelectAll),
        has_prefix(request, "GET /products"@) && !has_prefix(request, "GET /products/"@)
            ==> route_of(request) == Route::ReadAll && step_of(request, payload) == StepView::Run(
            CommandView::SelectAll,
        ),
{
    reveal_strlit("POST /products");
    reveal_strlit("GET /products/");
    reveal_strlit("GET /products");
    // Both beginnings start with `G`, so neither request is one to create.
    if has_prefix(request, "GET /products"@) {
        assert(request[0] == request.subrange(0, 13)[0]);
    }
    if has_prefix(request, "GET /products/"@) {
        assert(request[0] == request.subrange(0, 14)[0]);
    }
}

/// Where the storage finds no record with the identifier asked for, the
/// response says that the product was not found.
pub proof fn lemma_absent_product_not_found(id: int)
    ensures
        reply_of(CommandView::SelectOne { id }, OutcomeView::Rows(Seq::empty()))
            == ResponseView::not_found("Product not found"@),
{
}

/// Where a delete removes no record, the response says that there was none;
/// where it removes one or more, that the product was deleted.
pub proof fn lemma_delete_reports_absence(id: int, changed: nat)
    ensures
        changed == 0 ==> reply_of(CommandView::Delete { id }, OutcomeView::Affected(changed))
            == ResponseView::not_found("User not found"@),
        changed > 0 ==> reply_of(CommandView::Delete { id }, OutcomeView::Affected(changed))
            == ResponseView::ok("Product deleted"@),
{
}

/// Only the handlers that create and that update look at the record that
/// came with a request: for every other request the step is the same
/// whatever record came, or none.
pub proof fn lemma_record_matters_only_where_read(
    request: Seq<char>,
    one: Option<ProductView>,
    other: Option<ProductView>,
)
    requires
        route_of(request) != Route::Create,
        route_of(request) != Route::Update,
    ensures
        step_of(request, one) == step_of(request, other),
{
}

/// A request to create a record whose body holds none is answered at once
/// with the failure response: nothing is asked of the storage.
pub proof fn lemma_create_without_record_stores_nothing(request: Seq<char>)
    requires
        route_of(request) == Route::Create,
    ensures
        step_of(request, None) == StepView::Reply(ResponseView::error()),
        !(step_of(request, None) is Run),
{
}

/// A request to create a record asks the storage to store exactly the name
/// and the price that were sent, whatever identifier came with them.
pub proof fn lemma_create_stores_name_and_price(request: Seq<char>, record: ProductView)
    requires
        route_of(request) == Route::Create,
    ensures
        step_of(request, Some(record)) == StepView::Run(
            CommandView::Insert { name: record.name, price: record.price },
        ),
{
}

/// The body of a listing holds the JSON object of each record that the
/// storage answered with.
pub proof fn lemma_listing_holds_each_record(rows: Seq<ProductView>, i: int)
    requires
        0 <= i < rows.len(),
    ensures
        contains_text(array_json(rows), record_json(rows[i])),
        reply_of(CommandView::SelectAll, OutcomeView::Rows(rows)) == ResponseView::ok(
            array_json(rows),
        ),
{
    lemma_joined_holds_each_record(rows, i);
    let joined = records_text(rows);
    let object = record_json(rows[i]);
    let at = choose|at: int| occurs_at(joined, object, at);
    let whole = array_json(rows);
    let shift = "["@.len() as int;
    assert(whole.subrange(shift + at, shift + at + object.len()) =~= joined.subrange(
        at,
        at + object.len(),
    ));
    assert(occurs_at(whole, object, shift + at));
}

/// A record whose name is plain is written with that name as it is: the
/// object is the three members in their order, the name between double
/// quotes, and a read of one such record answers with that object.
pub proof fn lemma_plain_record_is_written_as_it_is(record: ProductView, id: int)
    requires
        is_plain(record.name),
    ensures
        record_json(record) == "{\"id\":"@ + id_text(record.id) + ",\"name\":\""@ + record.name
            + "\",\"price\":"@ + int_text(record.price) + "}"@,
        reply_of(CommandView::SelectOne { id }, OutcomeView::Rows(seq![record]))
            == ResponseView::ok(record_json(record)),
        array_json(seq![record]) == "["@ + record_json(record) + "]"@,
{
    reveal_strlit("\"");
    reveal_strlit(",\"name\":");
    reveal_strlit(",\"name\":\"");
    reveal_strlit(",\"price\":");
    reveal_strlit("\",\"price\":");
    assert(record_json(record) =~= "{\"id\":"@ + id_text(record.id) + ",\"name\":\""@
        + record.name + "\",\"price\":"@ + int_text(record.price) + "}"@);
}

/// A request for the records below a price asks the storage for those
/// whose price is less than the number in the path, that number being a
/// parameter of the statement; the response then lists the records that the
/// storage answers with, all of them and no others.
pub proof fn lemma_price_listing_asks_below_the_limit(
    request: Seq<char>,
    payload: Option<ProductView>,
    limit: int,
    rows: Seq<ProductView>,
)
    requires
        route_of(request) == Route::ReadByPrice,
        path_number(request) == Some(limit),
    ensures
        step_of(request, payload) == StepView::Run(CommandView::SelectBelow { price: limit }),
        (CommandView::SelectBelow { price: limit }).statement()
            == "SELECT * FROM products WHERE price<$1"@,
        (CommandView::SelectBelow { price: limit }).parameters() == seq![ParamView::Int(limit)],
        reply_of(CommandView::SelectBelow { price: limit }, OutcomeView::Rows(rows))
            == ResponseView::ok(array_json(rows)),
{
}

/// The objects of `rows`, joined by commas, hold the object of each of them.
proof fn lemma_joined_holds_each_record(rows: Seq<ProductView>, i: int)
    requires
        0 <= i < rows.len(),
    ensures
        contains_text(records_text(rows), record_json(rows[i])),
    decreases rows.len(),
{
    let joined = records_text(rows);
    let object = record_json(rows[i]);
    if rows.len() == 1 {
        assert(joined.subrange(0, object.len() as int) =~= object);
        assert(occurs_at(joined, object, 0));
    } else if i == rows.len() - 1 {
        let before = records_text(rows.drop_last()) + ","@;
        let at = before.len() as int;
        assert(joined.subrange(at, at + object.len()) =~= object);
        assert(occurs_at(joined, object, at));
    } else {
        lemma_joined_holds_each_record(rows.drop_last(), i);
        let shorter = records_text(rows.drop_last());
        let at = choose|at: int| occurs_at(shorter, object, at);
        assert(joined.subrange(at, at + object.len()) =~= shorter.subrange(at, at + object.len()));
        assert(occurs_at(joined, object, at));
    }
}

/// For a request that goes to a handler that reads a number from the path,
/// that number is read from what follows the beginning that chose the
/// handler, as far as the next `/` or whitespace.
pub proof fn lemma_id_follows_route(request: Seq<char>)
    ensures
        has_prefix(request, "GET /products/"@) ==> id_segment(request) == path_word(
            request.skip("GET /products/"@.len() as int),
        ),
        has_prefix(request, "GET /price/"@) ==> id_segment(request) == path_word(
            request.skip("GET /price/"@.len() as int),
        ),
        has_prefix(request, "PUT /products/"@) ==> id_segment(request) == path_word(
            request.skip("PUT /products/"@.len() as int),
        ),
        has_prefix(request, "DELETE /products/"@) ==> id_segment(request) == path_word(
            request.skip("DELETE /products/"@.len() as int),
        ),
{
    reveal_strlit("GET /products/");
    reveal_strlit("GET /price/");
    reveal_strlit("PUT /products/");
    reveal_strlit("DELETE /products/");
    if has_prefix(request, "GET /products/"@) {
        lemma_id_after_prefix(request, "GET /products/"@, 4, 13);
    }
    if has_prefix(request, "GET /price/"@) {
        lemma_id_after_prefix(request, "GET /price/"@, 4, 10);
    }
    if has_prefix(request, "PUT /products/"@) {
        lemma_id_after_prefix(request, "PUT /products/"@, 4, 13);
    }
    if has_prefix(request, "DELETE /products/"@) {
        lemma_id_after_prefix(request, "DELETE /products/"@, 7, 16);
    }
}

/// A request for all records whose path ends with `/products` holds no
/// identifier, whatever follows the path: a `/` in the protocol's name or in
/// a header is not read as part of the path.
pub proof fn lemma_listing_request_holds_no_id(request: Seq<char>)
    requires
        has_prefix(request, "GET /products"@),
        request.len() == "GET /products"@.len() || is_space(request["GET /products"@.len() as int]),
    ensures
        id_segment(request) == Seq::<char>::empty(),
{
    reveal_strlit("GET /products");
    reveal_strlit("/");
    let prefix = "GET /products"@;
    let slash = "/"@;
    assert(forall|k: int| 0 <= k < 13 ==> request[k] == prefix[k]);
    assert(request.subrange(4, 5) =~= slash);
    assert forall|k: int| 0 <= k < 4 implies !occurs_at(request, slash, k) by {
        assert(request.subrange(k, k + 1)[0] == request[k]);
    }
    lemma_find_is(request, slash, 0, 4);

    // The path ends behind `/products`.
    lemma_find_space_range(request, 4);
    let path = up_to_path_end(request);
    assert(path =~= prefix);

    // It has one `/`, and so two pieces.
    assert(path.subrange(4, 5) =~= slash);
    assert forall|k: int| 0 <= k < 13 && k != 4 implies !occurs_at(path, slash, k) by {
        assert(path.subrange(k, k + 1)[0] == path[k]);
    }
    lemma_find_range(path, slash, 5);
    lemma_split_from(path, slash, 5);
}

/// A request without a blank line is its own body; in one with a single
/// blank line the body is what follows that line.
pub proof fn lemma_body_follows_blank_line(request: Seq<char>)
    ensures
        ({
            let blank_line = "\r\n\r\n"@;
            let at = find(request, blank_line, 0);
            &&& at == request.len() ==> body_text(request) == request
            &&& at < request.len() && find(request, blank_line, at + blank_line.len())
                == request.len() ==> body_text(request) == request.skip(at + blank_line.len())
        }),
{
    reveal_strlit("\r\n\r\n");
    let blank_line = "\r\n\r\n"@;
    let at = find(request, blank_line, 0);
    assert(request.skip(0) =~= request);
    lemma_split_from(request, blank_line, 0);
    if at < request.len() {
        lemma_split_from(request, blank_line, at + blank_line.len());
    }
}

/// `find_stop` answers with a position between `from` and the end; nothing
/// before it is `/` or whitespace, and what stands there is.
proof fn lemma_find_stop_range(text: Seq<char>, from: int)
    requires
        0 <= from <= text.len(),
    ensures
        from <= find_stop(text, from) <= text.len(),
        find_stop(text, from) < text.len() ==> text[find_stop(text, from)] == '/' || is_space(
            text[find_stop(text, from)],
        ),
        forall|k: int|
            from <= k < find_stop(text, from) ==> text[k] != '/' && !is_space(text[k]),
    decreases text.len() - from,
{
    if from < text.len() && !(text[from] == '/' || is_space(text[from])) {
        lemma_find_stop_range(text, from + 1);
    }
}

/// Where `request` begins with `prefix`, and `prefix` ends with its second
/// `/` and holds no whitespace from its first `/` on, the identifier is read
/// from what follows `prefix`.
proof fn lemma_id_after_prefix(request: Seq<char>, prefix: Seq<char>, first: int, second: int)
    requires
        has_prefix(request, prefix),
        0 <= first < second,
        prefix.len() == second + 1,
        prefix[first] == '/',
        prefix[second] == '/',
        forall|k: int| 0 <= k < second && k != first ==> prefix[k] != '/',
        forall|k: int| first <= k <= second ==> !is_space(prefix[k]),
    ensures
        id_segment(request) == path_word(request.skip(prefix.len() as int)),
{
    reveal_strlit("/");
    let slash = "/"@;
    assert(forall|k: int| 0 <= k <= second ==> request[k] == prefix[k]);
    assert forall|k: int| 0 <= k < request.len() implies #[trigger] occurs_at(request, slash, k)
        == (request[k] == '/') by {
        if request[k] == '/' {
            assert(request.subrange(k, k + 1) =~= slash);
        } else {
            assert(request.subrange(k, k + 1)[0] == request[k]);
        }
    }
    lemma_find_is(request, slash, 0, first);

    // The path does not end inside the prefix.
    let end = find_space(request, first);
    lemma_find_space_range(request, first);
    let path = up_to_path_end(request);
    assert forall|k: int| 0 <= k < end implies #[trigger] occurs_at(path, slash, k) == (request[k]
        == '/') by {
        assert(path.subrange(k, k + 1) =~= request.subrange(k, k + 1));
        assert(occurs_at(request, slash, k) == (request[k] == '/'));
    }

    // Its first two pieces lie in the prefix, and the third begins behind it.
    lemma_find_is(path, slash, 0, first);
    lemma_find_is(path, slash, first + 1, second);
    lemma_split_from(path, slash, first + 1);
    lemma_split_from(path, slash, second + 1);
    let third = find(path, slash, second + 1);
    lemma_find_range(path, slash, second + 1);
    let piece = path.subrange(second + 1, third);

    // The third piece ends where the first `/` or whitespace stands.
    let rest = request.skip(second + 1);
    let stop = find_stop(rest, 0);
    lemma_find_stop_range(rest, 0);
    if stop < piece.len() {
        assert(!occurs_at(path, slash, second + 1 + stop));
    }
    if stop > piece.len() {
        assert(rest[piece.len() as int] == request[third]);
    }
}

} // verus!
