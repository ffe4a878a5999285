//! What helper programs print, read line by line: the password that the
//! user entered, and the languages that the text recogniser knows.

use crate::request::{
    find_line_end, line_end, spec_take_line, without_carriage_return, CARRIAGE_RETURN,
};
use vstd::prelude::*;
use vstd::string::{StringExecFns, StringSliceAdditionalSpecFns};
use vstd::utf8::{
    encode_utf8, encode_utf8_valid_utf8, is_char_boundary,
    is_char_boundary_iff_not_is_continuation_byte, is_char_boundary_start_end_of_seq, valid_utf8,
};

verus! {

/// The lines of `stream`, each without the line feed that ends it and
/// without a carriage return in front of that line feed. What follows the
/// last line feed is a line too, unless nothing follows it.
pub open spec fn spec_lines(stream: Seq<u8>) -> Seq<Seq<u8>>
    decreases stream.len(),
{
    let end = line_end(stream);
    if stream.len() == 0 {
        Seq::empty()
    } else if 0 <= end < stream.len() {
        seq![without_carriage_return(stream.take(end))] + spec_lines(stream.skip(end + 1))
    } else {
        seq![stream]
    }
}

/// The lines of `stream` but the first, if it has any.
pub open spec fn spec_lines_after_first(stream: Seq<u8>) -> Seq<Seq<u8>> {
    if spec_lines(stream).len() == 0 {
        Seq::empty()
    } else {
        spec_lines(stream).drop_first()
    }
}

/// The UTF-8 encodings of the texts of a vector of strings.
pub open spec fn encodings(strings: Seq<String>) -> Seq<Seq<u8>> {
    Seq::new(strings.len(), |i: int| encode_utf8(strings[i]@))
}

/// `std::str::from_utf8`: the text that the bytes encode, where they are
/// well-formed UTF-8, and nothing otherwise. The text holds the bytes it
/// was made from.
#[verifier::external_body]
fn text_of(bytes: &[u8]) -> (text: Option<&str>)
    ensures
        text is Some <==> valid_utf8(bytes@),
        text matches Some(found) ==> found.spec_bytes() == bytes@,
{
    match std::str::from_utf8(bytes) {
        Ok(text) => Some(text),
        Err(_) => None,
    }
}

proof fn lemma_line_end_bounds(stream: Seq<u8>)
    ensures
        0 <= line_end(stream) <= stream.len(),
        line_end(stream) < stream.len() ==> stream[line_end(stream)] == 10,
    decreases stream.len(),
{
    if stream.len() > 0 && stream[0] != 10 {
        lemma_line_end_bounds(stream.drop_first());
    }
}

/// Splits a text into its first line and what follows it.
fn split_line(text: &str) -> (split: Option<(&str, &str)>)
    ensures
        match spec_take_line(text.spec_bytes()) {
            None => split is None,
            Some((line, rest)) => split matches Some((head, tail)) && head.spec_bytes() == line
                && tail.spec_bytes() == rest && tail.spec_bytes().len() < text.spec_bytes().len(),
        },
{
    let bytes = text.as_bytes();
    if bytes.len() == 0 {
        return None;
    }
    let ghost stream = text.spec_bytes();
    assert(stream.skip(0) =~= stream);
    let end: usize = find_line_end(bytes, 0);
    proof {
        encode_utf8_valid_utf8(text@);
        lemma_line_end_bounds(stream);
        is_char_boundary_start_end_of_seq(stream);
        if end < bytes.len() {
            is_char_boundary_iff_not_is_continuation_byte(stream, end as int);
        }
    }
    let (raw, after) = text.split_at(end);
    assert(raw.spec_bytes() =~= stream.take(end as int));
    if end == bytes.len() {
        assert(raw.spec_bytes() =~= stream);
        assert(after.spec_bytes() =~= Seq::<u8>::empty());
        return Some((raw, after));
    }
    proof {
        let tail = after.spec_bytes();
        encode_utf8_valid_utf8(after@);
        assert(tail[0] == stream[end as int]);
        reveal_with_fuel(is_char_boundary, 2);
        assert(is_char_boundary(tail, 1));
    }
    let (_, rest) = after.split_at(1);
    assert(rest.spec_bytes() =~= stream.skip(end + 1));
    let raw_bytes = raw.as_bytes();
    if raw_bytes.len() > 0 && raw_bytes[raw_bytes.len() - 1] == CARRIAGE_RETURN {
        proof {
            encode_utf8_valid_utf8(raw@);
            is_char_boundary_iff_not_is_continuation_byte(
                raw.spec_bytes(),
                raw_bytes.len() - 1,
            );
        }
        let (line, _) = raw.split_at(raw_bytes.len() - 1);
        assert(line.spec_bytes() =~= without_carriage_return(stream.take(end as int)));
        Some((line, rest))
    } else {
        Some((raw, rest))
    }
}

/// The first line of a text, without its line end: nothing for a text that
/// is empty.
pub fn first_line(text: &str) -> (line: Option<String>)
    ensures
        match spec_take_line(text.spec_bytes()) {
            None => line is None,
            Some((first, _)) => line matches Some(found) && encode_utf8(found@) == first,
        },
{
    match split_line(text) {
        Some((head, _)) => Some(String::from_str(head)),
        None => None,
    }
}

/// The password that the user entered, from what the prompting program
/// printed: the first line of it. There is none where the program printed
/// nothing, or something that is no text.
pub fn password_from_prompt(printed: &[u8]) -> (password: Option<String>)
    ensures
        password is Some <==> valid_utf8(printed@) && printed@.len() > 0,
        password matches Some(found) ==> spec_take_line(printed@) matches Some((first, _))
            && encode_utf8(found@) == first,
{
    match text_of(printed) {
        Some(text) => first_line(text),
        None => None,
    }
}

/// The lines of a text but the first, in their order.
pub fn lines_after_first(text: &str) -> (lines: Vec<String>)
    ensures
        encodings(lines@) == spec_lines_after_first(text.spec_bytes()),
{
    let mut lines: Vec<String> = Vec::new();
    let ghost stream = text.spec_bytes();
    proof {
        lemma_line_end_bounds(stream);
    }
    let mut rest: &str = match split_line(text) {
        None => {
            assert(spec_lines_after_first(stream) =~= Seq::<Seq<u8>>::empty());
            assert(encodings(lines@) =~= Seq::<Seq<u8>>::empty());
            return lines;
        },
        Some((_, rest)) => rest,
    };
    proof {
        if line_end(stream) < stream.len() {
            assert(spec_lines_after_first(stream) =~= spec_lines(rest.spec_bytes()));
        } else {
            assert(stream.len() > 0);
            assert(spec_lines(stream) =~= seq![stream]);
            assert(spec_lines_after_first(stream) =~= Seq::<Seq<u8>>::empty());
            assert(rest.spec_bytes().len() == 0);
        }
        assert(encodings(lines@) + spec_lines(rest.spec_bytes()) =~= spec_lines(
            rest.spec_bytes(),
        ));
    }
    loop
        invariant
            encodings(lines@) + spec_lines(rest.spec_bytes()) == spec_lines_after_first(stream),
        ensures
            encodings(lines@) == spec_lines_after_first(stream),
        decreases rest.spec_bytes().len(),
    {
        let ghost left = rest.spec_bytes();
        let ghost so_far = encodings(lines@);
        proof {
            lemma_line_end_bounds(left);
        }
        match split_line(rest) {
            None => {
                assert(so_far + Seq::<Seq<u8>>::empty() =~= so_far);
                break;
            },
            Some((line, after)) => {
                lines.push(String::from_str(line));
                proof {
                    assert(encodings(lines@) =~= so_far.push(line.spec_bytes()));
                    if line_end(left) < left.len() {
                        assert(spec_lines(left) =~= seq![line.spec_bytes()] + spec_lines(
                            after.spec_bytes(),
                        ));
                    } else {
                        assert(after.spec_bytes().len() == 0);
                        assert(spec_lines(left) =~= seq![line.spec_bytes()] + spec_lines(
                            after.spec_bytes(),
                        ));
                    }
                    assert(so_far.push(line.spec_bytes()) + spec_lines(after.spec_bytes())
                        =~= so_far + (seq![line.spec_bytes()] + spec_lines(after.spec_bytes())));
                }
                rest = after;
            },
        }
    }
    lines
}

/// The languages that the text recogniser knows, from what it printed when
/// asked for them: every line but the first, which is a heading. There is
/// no list where it printed something that is no text.
pub fn list_ocr_langs(printed: &[u8]) -> (languages: Option<Vec<String>>)
    ensures
        languages is Some <==> valid_utf8(printed@),
        languages matches Some(found) ==> encodings(found@) == spec_lines_after_first(printed@),
{
    match text_of(printed) {
        Some(text) => Some(lines_after_first(text)),
        None => None,
    }
}

} // verus!
