//! Records as JSON text. The members of an object and the items of an array
//! are laid out here; the string literal for a name comes from `serde_json`.

use crate::number::{i32_text, int_text};
use crate::product::{Product, ProductView};
use vstd::pervasive::unreached;
use vstd::prelude::*;

verus! {

/// `serde_json::Error`, of which nothing is known here.
#[verifier::external_type_specification]
#[verifier::external_body]
pub struct ExJsonError(serde_json::Error);

/// Whether a JSON string can hold `c` as it is: every character can, but
/// the double quote, the backslash and the control characters below U+0020.
pub open spec fn is_plain_char(c: char) -> bool {
    c as u32 >= 0x20 && c != '"' && c != '\\'
}

/// Whether a JSON string can hold every character of `text` as it is.
pub open spec fn is_plain(text: Seq<char>) -> bool {
    forall|i: int| 0 <= i < text.len() ==> is_plain_char(#[trigger] text[i])
}

/// The JSON string literal for a text that is not plain: the text between
/// double quotes, with each character that cannot stand as it is written as
/// an escape.
pub uninterp spec fn escaped_string(text: Seq<char>) -> Seq<char>;

/// The JSON string literal that stands for `text`: a plain text between
/// double quotes, any other with its escapes.
pub open spec fn json_string(text: Seq<char>) -> Seq<char> {
    if is_plain(text) {
        "\""@ + text + "\""@
    } else {
        escaped_string(text)
    }
}

/// `serde_json::to_string` on a string slice. It answers with the JSON string
/// literal for the slice, and never with an error: it writes into a vector in
/// memory, and a string slice is always serialised as a string. What it
/// writes depends on the slice alone; a slice without a double quote, a
/// backslash or a character below U+0020 is written unchanged between two
/// double quotes.
#[verifier::external_body]
fn to_json_string(text: &str) -> (written: Result<String, serde_json::Error>)
    ensures
        written is Ok,
        is_plain(text@) ==> written.unwrap()@ == "\""@ + text@ + "\""@,
        !is_plain(text@) ==> written.unwrap()@ == escaped_string(text@),
{
    serde_json::to_string(text)
}

/// The JSON text of an identifier: its decimal text, or `null` where there is
/// none.
pub open spec fn id_text(id: Option<int>) -> Seq<char> {
    match id {
        Some(v) => int_text(v),
        None => "null"@,
    }
}

/// The JSON object of a record whose name is already written as the string
/// literal `quoted_name`: the three members in the order `id`, `name`,
/// `price`, with no space between them.
pub open spec fn record_text(id: Option<int>, quoted_name: Seq<char>, price: int) -> Seq<char> {
    "{\"id\":"@ + id_text(id) + ",\"name\":"@ + quoted_name + ",\"price\":"@ + int_text(price)
        + "}"@
}

/// The JSON object of a record.
pub open spec fn record_json(record: ProductView) -> Seq<char> {
    record_text(record.id, json_string(record.name), record.price)
}

/// The JSON objects of `records` in order, with a comma between each two.
pub open spec fn records_text(records: Seq<ProductView>) -> Seq<char>
    decreases records.len(),
{
    if records.len() == 0 {
        Seq::empty()
    } else if records.len() == 1 {
        record_json(records[0])
    } else {
        records_text(records.drop_last()) + ","@ + record_json(records.last())
    }
}

/// The JSON array of `records`.
pub open spec fn array_json(records: Seq<ProductView>) -> Seq<char> {
    "["@ + records_text(records) + "]"@
}

/// The views of `records`, in order.
pub open spec fn views(records: Seq<Product>) -> Seq<ProductView> {
    records.map_values(|record: Product| record@)
}

/// The JSON string literal for `text`.
pub fn quote(text: &str) -> (literal: String)
    ensures
        literal@ == json_string(text@),
{
    match to_json_string(text) {
        Ok(literal) => literal,
        Err(_) => unreached(),
    }
}

/// The JSON object of a record whose name is already written as the string
/// literal `quoted_name`.
pub fn write_record(id: Option<i32>, quoted_name: &str, price: i32) -> (text: String)
    ensures
        text@ == record_text(
            match id {
                Some(v) => Some(v as int),
                None => None,
            },
            quoted_name@,
            price as int,
        ),
{
    let mut text = String::from_str("{\"id\":");
    match id {
        Some(v) => {
            let digits = i32_text(v);
            text.append(digits.as_str());
        },
        None => {
            text.append("null");
        },
    }
    text.append(",\"name\":");
    text.append(quoted_name);
    text.append(",\"price\":");
    let digits = i32_text(price);
    text.append(digits.as_str());
    text.append("}");
    text
}

/// The JSON object of `record`.
pub fn to_json(record: &Product) -> (text: String)
    ensures
        text@ == record_json(record@),
{
    let quoted_name = quote(record.name.as_str());
    write_record(record.id, quoted_name.as_str(), record.price)
}

/// The JSON array of `records`.
pub fn to_json_array(records: &Vec<Product>) -> (text: String)
    ensures
        text@ == array_json(views(records@)),
{
    let mut text = String::from_str("[");
    let mut i: usize = 0;
    while i < records.len()
        invariant
            i <= records.len(),
            text@ == "["@ + records_text(views(records@).take(i as int)),
        decreases records.len() - i,
    {
        if i > 0 {
            text.append(",");
        }
        let object = to_json(&records[i]);
        text.append(object.as_str());
        proof {
            let now = views(records@).take(i + 1);
            assert(now.drop_last() =~= views(records@).take(i as int));
        }
        i += 1;
    }
    assert(views(records@).take(i as int) =~= views(records@));
    text.append("]");
    text
}

} // verus!
