use vstd::prelude::*;
use vstd::utf8::{valid_utf8, decode_utf8};

verus! {

/// The instrument's answer without the NUL bytes that pad its read buffer.
pub open spec fn without_padding(b: Seq<u8>) -> Seq<u8>
    decreases b.len(),
{
    if b.len() > 0 && b.last() == 0 {
        without_padding(b.drop_last())
    } else {
        b
    }
}

/// The comma-separated fields of `b`, as bytes; there is always at least one.
pub open spec fn fields(b: Seq<u8>) -> Seq<Seq<u8>>
    decreases b.len(),
{
    if b.len() == 0 {
        seq![Seq::empty()]
    } else {
        let f = fields(b.drop_last());
        if b.last() == 44u8 {
            f.push(Seq::empty())
        } else {
            f.update(f.len() - 1, f.last().push(b.last()))
        }
    }
}

/// Relies on `std::str::from_utf8`: `Ok` exactly for valid UTF-8, holding
/// the characters that the bytes encode.
#[verifier::external_body]
fn utf8_text(b: &[u8]) -> (r: Option<String>)
    ensures
        r is Some <==> valid_utf8(b@),
        r matches Some(s) ==> s@ == decode_utf8(b@),
{
    std::str::from_utf8(b).ok().map(|s| s.to_string())
}

proof fn lemma_fields_nonempty(b: Seq<u8>)
    ensures
        fields(b).len() >= 1,
    decreases b.len(),
{
    if b.len() > 0 {
        lemma_fields_nonempty(b.drop_last());
    }
}

/// Growing the input keeps every field that a comma has already closed.
proof fn lemma_fields_prefix(b: Seq<u8>, i: int, j: int)
    requires
        0 <= i <= j <= b.len(),
    ensures
        fields(b.take(j)).len() >= fields(b.take(i)).len(),
        forall|k: int|
            0 <= k < fields(b.take(i)).len() - 1 ==> #[trigger] fields(b.take(j))[k] == fields(
                b.take(i),
            )[k],
    decreases j - i,
{
    if j > i {
        lemma_fields_prefix(b, i, j - 1);
        lemma_fields_nonempty(b.take(j - 1));
        assert(b.take(j).drop_last() =~= b.take(j - 1));
    }
}

/// Splits one answer of the instrument into its raw values: the trailing NUL
/// padding is dropped and the rest is cut at each comma. `None` when a value
/// is not valid UTF-8.
pub fn split_reading(buf: &[u8]) -> (r: Option<Vec<String>>)
    ensures
        r is Some <==> (forall|k: int|
            0 <= k < fields(without_padding(buf@)).len() ==> valid_utf8(
                #[trigger] fields(without_padding(buf@))[k],
            )),
        r matches Some(values) ==> values@.len() == fields(without_padding(buf@)).len(),
        r matches Some(values) ==> forall|k: int|
            0 <= k < values@.len() ==> #[trigger] values@[k]@ == decode_utf8(
                fields(without_padding(buf@))[k],
            ),
{
    let mut end: usize = buf.len();
    assert(buf@.take(end as int) =~= buf@);
    while end > 0 && buf[end - 1] == 0
        invariant
            end <= buf@.len(),
            without_padding(buf@.take(end as int)) == without_padding(buf@),
        decreases end,
    {
        assert(buf@.take(end as int).drop_last() =~= buf@.take(end - 1));
        end = end - 1;
    }
    let ghost text = buf@.take(end as int);
    assert(without_padding(text) == text);
    let mut values: Vec<String> = Vec::new();
    let mut start: usize = 0;
    let mut i: usize = 0;
    assert(text.take(0) =~= Seq::<u8>::empty());
    assert(text.subrange(0, 0) =~= Seq::<u8>::empty());
    while i < end
        invariant
            end <= buf@.len(),
            text == buf@.take(end as int),
            without_padding(buf@) == text,
            start <= i <= end,
            fields(text.take(i as int)).len() == values@.len() + 1,
            fields(text.take(i as int)).last() == text.subrange(start as int, i as int),
            forall|k: int|
                0 <= k < values@.len() ==> valid_utf8(#[trigger] fields(text.take(i as int))[k])
                    && values@[k]@ == decode_utf8(fields(text.take(i as int))[k]),
        decreases end - i,
    {
        let ghost f = fields(text.take(i as int));
        assert(text.take(i + 1).drop_last() =~= text.take(i as int));
        assert(text.take(i + 1).last() == buf@[i as int]);
        if buf[i] == 44u8 {
            let piece = utf8_text(&buf[start..i]);
            assert(buf@.subrange(start as int, i as int) =~= text.subrange(start as int, i as int));
            match piece {
                Some(s) => values.push(s),
                None => {
                    proof {
                        let k = values@.len() as int;
                        assert(fields(text.take(i + 1)) == f.push(Seq::empty()));
                        assert(fields(text.take(i + 1))[k] == f.last());
                        lemma_fields_prefix(text, i + 1, end as int);
                        assert(text.take(end as int) =~= text);
                        assert(fields(text)[k] == f.last());
                        assert(!valid_utf8(fields(without_padding(buf@))[k]));
                    }
                    return None;
                },
            }
            start = i + 1;
            assert(text.subrange(start as int, start as int) =~= Seq::<u8>::empty());
        } else {
            assert(text.subrange(start as int, i + 1) =~= text.subrange(start as int, i as int).push(
                buf@[i as int],
            ));
        }
        i = i + 1;
    }
    assert(text.take(end as int) =~= text);
    let piece = utf8_text(&buf[start..end]);
    assert(buf@.subrange(start as int, end as int) =~= text.subrange(start as int, end as int));
    match piece {
        Some(s) => {
            values.push(s);
            Some(values)
        },
        None => None,
    }
}

} // verus!
