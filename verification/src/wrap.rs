//! Line wrapping for the presentation layer: a long line is cut into chunks
//! no wider than the view, and the chunks concatenate back to the line.

use vstd::prelude::*;
use vstd::string::StrSliceExecFns;

verus! {

/// The chunks of `l[i..]` under the given width: full-width chunks until at
/// most one width remains, then the remainder, if any.
pub open spec fn wrap_from(l: Seq<char>, width: int, i: int) -> Seq<Seq<char>>
    decreases l.len() - i,
{
    if width <= 0 || i < 0 || i >= l.len() {
        Seq::empty()
    } else if l.len() - i <= width {
        seq![l.subrange(i, l.len() as int)]
    } else {
        seq![l.subrange(i, i + width)] + wrap_from(l, width, i + width)
    }
}

/// The chunks of a whole line.
pub open spec fn wrap_chunks(l: Seq<char>, width: int) -> Seq<Seq<char>> {
    wrap_from(l, width, 0)
}

/// The chunks of `l[i..]` concatenate back to `l[i..]`, and none is wider
/// than `width`.
pub proof fn lemma_wrap_from_props(l: Seq<char>, width: int, i: int)
    requires
        width > 0,
        0 <= i <= l.len(),
    ensures
        wrap_from(l, width, i).flatten() == l.subrange(i, l.len() as int),
        forall|k: int|
            0 <= k < wrap_from(l, width, i).len() ==> #[trigger] wrap_from(l, width, i)[k].len()
                <= width,
    decreases l.len() - i,
{
    let chunks = wrap_from(l, width, i);
    if i >= l.len() {
        assert(chunks.flatten() =~= l.subrange(i, l.len() as int));
    } else if l.len() - i <= width {
        chunks.lemma_flatten_one_element();
        assert(chunks.flatten() =~= l.subrange(i, l.len() as int));
    } else {
        lemma_wrap_from_props(l, width, i + width);
        let rest = wrap_from(l, width, i + width);
        assert(chunks.drop_first() =~= rest);
        assert(chunks.flatten() == l.subrange(i, i + width) + rest.flatten());
        assert(chunks.flatten() =~= l.subrange(i, l.len() as int));
        assert forall|k: int| 0 <= k < chunks.len() implies #[trigger] chunks[k].len()
            <= width by {
            if k > 0 {
                assert(chunks[k] == rest[k - 1]);
            }
        }
    }
}

/// Law form of the wrapping contract on a whole line: the chunks
/// concatenate back to the line and respect the width.
pub proof fn lemma_wrap_chunks_props(l: Seq<char>, width: int)
    requires
        width > 0,
    ensures
        wrap_chunks(l, width).flatten() == l,
        forall|k: int|
            0 <= k < wrap_chunks(l, width).len() ==> #[trigger] wrap_chunks(l, width)[k].len()
                <= width,
{
    lemma_wrap_from_props(l, width, 0);
    assert(l.subrange(0, l.len() as int) =~= l);
}

/// Cuts one line into chunks of at most `width` characters; an empty line
/// yields no chunks.
pub fn wrap_line(l: &str, width: usize) -> (r: Vec<String>)
    requires
        width > 0,
    ensures
        r@.map_values(|s: String| s@) == wrap_chunks(l@, width as int),
{
    let len = l.unicode_len();
    let mut r: Vec<String> = Vec::new();
    let mut pos: usize = 0;
    proof {
        assert(r@.map_values(|s: String| s@) =~= Seq::<Seq<char>>::empty());
    }
    while pos < len
        invariant
            width > 0,
            pos <= len,
            len == l@.len(),
            wrap_chunks(l@, width as int) == r@.map_values(|s: String| s@) + wrap_from(
                l@,
                width as int,
                pos as int,
            ),
        decreases len - pos,
    {
        let end = if len - pos <= width {
            len
        } else {
            pos + width
        };
        let ghost r0 = r@;
        let chunk = l.substring_char(pos, end).to_owned();
        r.push(chunk);
        proof {
            assert(r@.map_values(|s: String| s@) =~= r0.map_values(|s: String| s@).push(
                chunk@,
            ));
            assert(r0.map_values(|s: String| s@).push(chunk@) + wrap_from(
                l@,
                width as int,
                end as int,
            ) =~= r0.map_values(|s: String| s@) + (seq![chunk@] + wrap_from(
                l@,
                width as int,
                end as int,
            )));
            if end == len {
                assert(seq![chunk@] + wrap_from(l@, width as int, end as int) =~= wrap_from(
                    l@,
                    width as int,
                    pos as int,
                ));
            }
        }
        pos = end;
    }
    proof {
        assert(wrap_chunks(l@, width as int) =~= r@.map_values(|s: String| s@));
    }
    r
}

} // verus!
