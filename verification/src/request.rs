//! Reading a request: its text, the identifier in its path, and its body.

use crate::text::{
    chars_of, find, find_from, find_space, find_space_from, lemma_find_range,
    lemma_find_space_range, lemma_find_take, lemma_split_from, split,
};
use vstd::prelude::*;
use vstd::slice::slice_subrange;
use vstd::utf8::{decode_utf8, valid_utf8};

verus! {

/// How many bytes of a request are read. What a client sends beyond them is
/// never looked at.
pub const BUFFER_SIZE: usize = 1024;

/// The text that a run of bytes reads as when every part of it that is not
/// UTF-8 is replaced by U+FFFD.
pub uninterp spec fn lossy_text(bytes: Seq<u8>) -> Seq<char>;

/// `String::from_utf8_lossy`, its result as an owned string. The text
/// depends on the bytes alone, and bytes that are UTF-8 throughout come out as
/// the text that they encode.
#[verifier::external_body]
fn decode_lossy(bytes: &[u8]) -> (text: String)
    ensures
        text@ == lossy_text(bytes@),
        valid_utf8(bytes@) ==> text@ == decode_utf8(bytes@),
{
    String::from_utf8_lossy(bytes).into_owned()
}

/// The bytes of `sent` that are read.
pub open spec fn received(sent: Seq<u8>) -> Seq<u8> {
    if sent.len() <= BUFFER_SIZE {
        sent
    } else {
        sent.take(BUFFER_SIZE as int)
    }
}

/// `request` as far as its path goes: up to the first whitespace that
/// follows its first `/`. All of `request` where it has no `/`, or no
/// whitespace after it.
pub open spec fn up_to_path_end(request: Seq<char>) -> Seq<char> {
    request.take(find_space(request, find(request, "/"@, 0)))
}

/// The third of the pieces that `/` cuts `request` into as far as its path
/// goes; nothing where there are fewer than three. A `/` behind the end of
/// the path cuts nothing.
pub open spec fn id_segment(request: Seq<char>) -> Seq<char> {
    let pieces = split(up_to_path_end(request), "/"@);
    if pieces.len() > 2 {
        pieces[2]
    } else {
        Seq::empty()
    }
}

/// The last of the pieces that its blank lines cut `request` into: what
/// follows the last of them, or all of `request` where it has none.
pub open spec fn body_text(request: Seq<char>) -> Seq<char> {
    split(request, "\r\n\r\n"@).last()
}

/// The text of a request: the bytes that are read of it, with every part
/// that is not UTF-8 replaced by U+FFFD.
pub fn request_text(sent: &[u8]) -> (request: String)
    ensures
        request@ == lossy_text(received(sent@)),
        valid_utf8(received(sent@)) ==> request@ == decode_utf8(received(sent@)),
{
    if sent.len() <= BUFFER_SIZE {
        decode_lossy(sent)
    } else {
        decode_lossy(slice_subrange(sent, 0, BUFFER_SIZE))
    }
}

/// The identifier in the path of `request`, as text: the third piece of the
/// path, or the empty text where the path has fewer than three.
pub fn get_id(request: &str) -> (id: &str)
    ensures
        id@ == id_segment(request@),
{
    let mut path = chars_of(request);
    let slash = chars_of("/");
    proof {
        reveal_strlit("/");
        lemma_find_range(request@, slash@, 0);
    }
    let first = find_from(&path, &slash, 0);
    if first == path.len() {
        proof {
            assert(up_to_path_end(request@) =~= request@);
        }
        return request.substring_char(0, 0);
    }
    let end = find_space_from(&path, first);
    proof {
        // The path begins with `/`, which is no whitespace, so it does not
        // end there.
        assert(request@.subrange(first as int, first + 1)[0] == request@[first as int]);
        lemma_find_space_range(request@, first as int);
        lemma_find_take(request@, slash@, 0, end as int);
    }
    path.truncate(end);
    proof {
        assert(path@.skip(0) =~= path@);
        lemma_split_from(path@, slash@, 0);
        lemma_split_from(path@, slash@, first + 1);
    }
    let second = find_from(&path, &slash, first + 1);
    if second == end {
        return request.substring_char(0, 0);
    }
    proof {
        lemma_split_from(path@, slash@, second + 1);
    }
    let third = find_from(&path, &slash, second + 1);
    assert(path@.subrange(second + 1, third as int) =~= request@.subrange(
        second + 1,
        third as int,
    ));
    request.substring_char(second + 1, third)
}

/// The body of `request`, as text: what follows its last blank line. The
/// record in it is for the caller to decode.
pub fn get_product_request_body(request: &str) -> (body: &str)
    ensures
        body@ == body_text(request@),
{
    let chars = chars_of(request);
    let blank_line = chars_of("\r\n\r\n");
    let n = chars.len();
    proof {
        reveal_strlit("\r\n\r\n");
        assert(chars@.skip(0) =~= chars@);
    }
    let mut start: usize = 0;
    loop
        invariant
            n == chars.len(),
            chars@ == request@,
            blank_line@ == "\r\n\r\n"@,
            blank_line@.len() == 4,
            start <= n,
            body_text(request@) == split(chars@.skip(start as int), blank_line@).last(),
        ensures
            start <= n,
            body_text(request@) == chars@.skip(start as int),
        decreases n - start,
    {
        proof {
            lemma_split_from(chars@, blank_line@, start as int);
        }
        let at = find_from(&chars, &blank_line, start);
        if at == n {
            break;
        }
        start = at + 4;
    }
    request.substring_char(start, n)
}

} // verus!
