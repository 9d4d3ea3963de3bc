//! Bounds on what is kept of a provider's answer.

use vstd::prelude::*;
use vstd::string::*;
use vstd::utf8::*;

verus! {

/// How many bytes of an error answer are kept.
pub const ERROR_BODY_LIMIT_BYTES: usize = 4096;

/// The last character boundary that is not behind a position.
pub open spec fn last_boundary(bytes: Seq<u8>, position: nat) -> nat
    decreases position,
{
    if position == 0 || is_char_boundary(bytes, position as int) {
        position
    } else {
        last_boundary(bytes, (position - 1) as nat)
    }
}

/// A text cut down to as many whole characters as fit the limit.
pub open spec fn truncated(text: Seq<char>) -> Seq<char> {
    let bytes = encode_utf8(text);
    if bytes.len() <= ERROR_BODY_LIMIT_BYTES {
        text
    } else {
        decode_utf8(
            bytes.subrange(0, last_boundary(bytes, ERROR_BODY_LIMIT_BYTES as nat) as int),
        )
    }
}

/// Cuts the text of an error answer down to as many whole characters as fit the limit.
pub fn truncate_error_body(body: &str) -> (r: String)
    ensures
        r@ == truncated(body@),
{
    let ghost bytes = encode_utf8(body@);
    if body.as_bytes().len() <= ERROR_BODY_LIMIT_BYTES {
        return body.to_owned();
    }
    proof {
        encode_utf8_valid_utf8(body@);
        is_char_boundary_start_end_of_seq(bytes);
    }
    let mut end: usize = ERROR_BODY_LIMIT_BYTES;
    while !body.is_char_boundary(end)
        invariant
            bytes == encode_utf8(body@),
            end <= ERROR_BODY_LIMIT_BYTES,
            last_boundary(bytes, ERROR_BODY_LIMIT_BYTES as nat) == last_boundary(bytes, end as nat),
            is_char_boundary(bytes, 0),
        decreases end,
    {
        end = end - 1;
    }
    let (head, _) = body.split_at(end);
    proof {
        encode_utf8_decode_utf8(head@);
    }
    head.to_owned()
}

proof fn last_boundary_is_boundary(bytes: Seq<u8>, position: nat)
    requires
        valid_utf8(bytes),
    ensures
        is_char_boundary(bytes, last_boundary(bytes, position) as int),
        last_boundary(bytes, position) <= position,
        forall|i: int|
            last_boundary(bytes, position) < i <= position ==> !#[trigger] is_char_boundary(
                bytes,
                i,
            ),
    decreases position,
{
    is_char_boundary_start_end_of_seq(bytes);
    if position == 0 || is_char_boundary(bytes, position as int) {
    } else {
        last_boundary_is_boundary(bytes, (position - 1) as nat);
    }
}

proof fn encoded_prefix_ends_at_boundary(text: Seq<char>, k: int)
    requires
        0 <= k <= text.len(),
    ensures
        is_char_boundary(encode_utf8(text), encode_utf8(text.take(k)).len() as int),
        encode_utf8(text.take(k)).len() <= encode_utf8(text).len(),
    decreases k,
{
    let bytes = encode_utf8(text);
    encode_utf8_valid_utf8(text);
    if k == 0 {
        assert(text.take(0) =~= Seq::empty());
    } else {
        let rest = text.drop_first();
        encode_utf8_first_scalar(text);
        encode_utf8_first_scalar(text.take(k));
        assert(text.take(k).drop_first() =~= rest.take(k - 1));
        assert(pop_first_scalar(bytes) =~= encode_utf8(rest));
        encoded_prefix_ends_at_boundary(rest, k - 1);
    }
}

proof fn encoded_prefix_grows(text: Seq<char>, m: int, k: int)
    requires
        0 <= m < k <= text.len(),
    ensures
        encode_utf8(text.take(m)).len() < encode_utf8(text.take(k)).len(),
    decreases m,
{
    encode_utf8_first_scalar(text.take(k));
    if m == 0 {
        assert(text.take(0) =~= Seq::empty());
    } else {
        encode_utf8_first_scalar(text.take(m));
        let rest = text.drop_first();
        assert(text.take(k).drop_first() =~= rest.take(k - 1));
        assert(text.take(m).drop_first() =~= rest.take(m - 1));
        encoded_prefix_grows(rest, m - 1, k - 1);
    }
}

/// A truncated text is the longest beginning of the text that fits the limit.
pub proof fn truncated_is_longest_fitting_prefix(text: Seq<char>)
    ensures
        truncated(text).is_prefix_of(text),
        encode_utf8(truncated(text)).len() <= ERROR_BODY_LIMIT_BYTES,
        forall|k: int|
            truncated(text).len() < k <= text.len() ==> encode_utf8(#[trigger] text.take(k)).len()
                > ERROR_BODY_LIMIT_BYTES,
{
    let bytes = encode_utf8(text);
    if bytes.len() > ERROR_BODY_LIMIT_BYTES {
        let end = last_boundary(bytes, ERROR_BODY_LIMIT_BYTES as nat) as int;
        encode_utf8_valid_utf8(text);
        last_boundary_is_boundary(bytes, ERROR_BODY_LIMIT_BYTES as nat);
        valid_utf8_split(bytes, end);
        decode_utf8_split(bytes, end);
        encode_utf8_decode_utf8(text);
        decode_utf8_encode_utf8(bytes.subrange(0, end));
        let head = truncated(text);
        assert(head =~= text.take(head.len() as int));
        assert forall|k: int| head.len() < k <= text.len() implies encode_utf8(
            #[trigger] text.take(k),
        ).len() > ERROR_BODY_LIMIT_BYTES by {
            encoded_prefix_ends_at_boundary(text, k);
            encoded_prefix_grows(text, head.len() as int, k);
        }
    }
}

/// The text of an error answer is kept whole where it fits in 4096 bytes. Otherwise the longest
/// beginning of whole characters that fits is kept.
pub proof fn error_body_is_cut_at_limit(body: &str, kept: String)
    requires
        call_ensures(truncate_error_body, (body,), kept),
    ensures
        encode_utf8(body@).len() <= 4096 ==> kept@ == body@,
        kept@.is_prefix_of(body@),
        encode_utf8(kept@).len() <= 4096,
        forall|k: int|
            kept@.len() < k <= body@.len() ==> encode_utf8(#[trigger] body@.take(k)).len() > 4096,
{
    truncated_is_longest_fitting_prefix(body@);
}

} // verus!
