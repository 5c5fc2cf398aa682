//! Soft wrapping of the prompt editor.
use vstd::prelude::*;
use vstd::string::*;

use crate::graphemes::{
    count_graphemes, display_width, graphemes, joined, lemma_joined_take, lemma_pieces_bound,
    measure, solid, split_graphemes, texts,
};
use crate::text::same;

verus! {

/// The prompt as drawn: its rows, and the row and column of the cursor.
#[derive(Debug, Clone, PartialEq, Eq)]
pub struct PromptLayout {
    pub rows: Vec<String>,
    /// The grapheme cluster each row starts at.
    pub row_starts: Vec<usize>,
    pub cursor_row: usize,
    pub cursor_column: usize,
}

/// One row of wrapped text.
#[verifier::ext_equal]
pub struct Row {
    /// The first piece of the row.
    pub start: nat,
    pub text: Seq<char>,
    /// Cells taken; every piece counts at least one.
    pub width: nat,
}

/// The cells a piece takes in a row.
pub open spec fn cells(width: usize) -> nat {
    if width == 0 {
        1
    } else {
        width as nat
    }
}

pub open spec fn is_newline(piece: Seq<char>) -> bool {
    piece == "\n"@
}

/// Whether a piece of `piece_cells` cells no longer fits into `row`.
pub open spec fn overflows(row: Row, piece_cells: nat, width: nat) -> bool {
    row.width > 0 && row.width + piece_cells > width
}

/// The rows after the first `k` pieces, wrapped at `width` cells.
pub open spec fn wrapped(
    pieces: Seq<Seq<char>>,
    widths: Seq<usize>,
    width: nat,
    k: nat,
) -> Seq<Row>
    decreases k,
{
    if k == 0 {
        seq![Row { start: 0, text: seq![], width: 0 }]
    } else {
        let rows = wrapped(pieces, widths, width, (k - 1) as nat);
        let piece = pieces[k - 1];
        let n = cells(widths[k - 1]);
        if is_newline(piece) {
            rows.push(Row { start: k, text: seq![], width: 0 })
        } else if overflows(rows.last(), n, width) {
            rows.push(Row { start: (k - 1) as nat, text: piece, width: n })
        } else {
            rows.update(
                rows.len() - 1,
                Row {
                    start: rows.last().start,
                    text: rows.last().text + piece,
                    width: rows.last().width + n,
                },
            )
        }
    }
}

/// The row the cursor is on when it stands before piece `cursor`, and the text of that row
/// before the cursor.
pub open spec fn cursor_spot(
    pieces: Seq<Seq<char>>,
    widths: Seq<usize>,
    width: nat,
    cursor: nat,
) -> (nat, Seq<char>) {
    let rows = wrapped(pieces, widths, width, cursor);
    if cursor < pieces.len() && !is_newline(pieces[cursor as int]) && overflows(
        rows.last(),
        cells(widths[cursor as int]),
        width,
    ) {
        (rows.len(), seq![])
    } else {
        ((rows.len() - 1) as nat, rows.last().text)
    }
}

pub open spec fn row_texts(rows: Seq<Row>) -> Seq<Seq<char>> {
    rows.map_values(|r: Row| r.text)
}

pub open spec fn row_starts(rows: Seq<Row>) -> Seq<nat> {
    rows.map_values(|r: Row| r.start)
}

/// The display widths of all pieces.
pub open spec fn widths_of(pieces: Seq<Seq<char>>) -> Seq<usize> {
    pieces.map_values(|p: Seq<char>| display_width(p))
}

pub open spec fn at_least_one(n: nat) -> nat {
    if n == 0 {
        1
    } else {
        n
    }
}

pub open spec fn at_most(n: nat, max: nat) -> nat {
    if n <= max {
        n
    } else {
        max
    }
}

/// The numbers of a list of machine integers.
pub open spec fn nats(v: Seq<usize>) -> Seq<nat> {
    v.map_values(|n: usize| n as nat)
}

/// The rows of a prompt.
pub open spec fn prompt_rows(value: Seq<char>, width: nat) -> Seq<Row> {
    let pieces = graphemes(value);
    wrapped(pieces, widths_of(pieces), at_least_one(width), pieces.len())
}

/// Row of the cursor and the text before it on that row.
pub open spec fn prompt_cursor_spot(value: Seq<char>, cursor: nat, width: nat) -> (nat, Seq<char>) {
    let pieces = graphemes(value);
    cursor_spot(
        pieces,
        widths_of(pieces),
        at_least_one(width),
        at_most(cursor, pieces.len()),
    )
}

impl PromptLayout {
    /// The layout shows `value` wrapped at `width` cells with the cursor before grapheme
    /// cluster `cursor` (or at the end).
    pub open spec fn shows(self, value: Seq<char>, cursor: nat, width: nat) -> bool {
        let rows = prompt_rows(value, width);
        let spot = prompt_cursor_spot(value, cursor, width);
        &&& texts(self.rows@) == row_texts(rows)
        &&& nats(self.row_starts@) == row_starts(rows)
        &&& self.cursor_row == spot.0
        &&& self.cursor_column == graphemes(spot.1).len()
    }
}

/// Rows of pieces, and where the cursor is among them.
pub struct PieceLayout {
    pub rows: Vec<String>,
    pub row_starts: Vec<usize>,
    pub cursor_row: usize,
    /// The text of the cursor's row before the cursor.
    pub cursor_text: String,
}

impl PieceLayout {
    pub open spec fn shows(
        self,
        pieces: Seq<Seq<char>>,
        widths: Seq<usize>,
        cursor: nat,
        width: nat,
    ) -> bool {
        let rows = wrapped(pieces, widths, at_least_one(width), pieces.len());
        let spot = cursor_spot(
            pieces,
            widths,
            at_least_one(width),
            at_most(cursor, pieces.len()),
        );
        &&& texts(self.rows@) == row_texts(rows)
        &&& nats(self.row_starts@) == row_starts(rows)
        &&& self.cursor_row == spot.0
        &&& self.cursor_text@ == spot.1
    }
}

pub proof fn lemma_wrapped_nonempty(
    pieces: Seq<Seq<char>>,
    widths: Seq<usize>,
    width: nat,
    k: nat,
)
    ensures
        wrapped(pieces, widths, width, k).len() > 0,
    decreases k,
{
    if k > 0 {
        lemma_wrapped_nonempty(pieces, widths, width, (k - 1) as nat);
    }
}

/// The pieces that are not line breaks.
pub open spec fn visible(pieces: Seq<Seq<char>>) -> Seq<Seq<char>> {
    pieces.filter(|p: Seq<char>| !is_newline(p))
}

/// Wrapping loses nothing and adds nothing: the rows, one after the other, hold exactly the
/// pieces that are not line breaks.
pub proof fn law_rows_hold_the_text(
    pieces: Seq<Seq<char>>,
    widths: Seq<usize>,
    width: nat,
    k: nat,
)
    requires
        k <= pieces.len(),
    ensures
        joined(row_texts(wrapped(pieces, widths, width, k))) == joined(
            visible(pieces.take(k as int)),
        ),
    decreases k,
{
    let shown = |p: Seq<char>| !is_newline(p);
    reveal(Seq::filter);
    if k == 0 {
        let rows = wrapped(pieces, widths, width, 0);
        assert(row_texts(rows) =~= seq![Seq::<char>::empty()]);
        assert(row_texts(rows).drop_last() =~= Seq::<Seq<char>>::empty());
        assert(joined(Seq::<Seq<char>>::empty()) =~= Seq::<char>::empty());
        assert(joined(row_texts(rows)) =~= Seq::<char>::empty());
        assert(visible(pieces.take(0)) =~= Seq::<Seq<char>>::empty());
    } else {
        law_rows_hold_the_text(pieces, widths, width, (k - 1) as nat);
        lemma_wrapped_nonempty(pieces, widths, width, (k - 1) as nat);
        let before = wrapped(pieces, widths, width, (k - 1) as nat);
        let after = wrapped(pieces, widths, width, k);
        let piece = pieces[k - 1];
        let seen = visible(pieces.take(k - 1));
        assert(pieces.take(k as int).drop_last() =~= pieces.take(k - 1));
        assert(pieces.take(k as int).last() == piece);
        if is_newline(piece) {
            assert(visible(pieces.take(k as int)) == seen);
            assert(row_texts(after).drop_last() =~= row_texts(before));
            assert(joined(row_texts(after)) =~= joined(row_texts(before)));
        } else {
            assert(visible(pieces.take(k as int)) == seen.push(piece));
            assert(seen.push(piece).drop_last() =~= seen);
            if overflows(before.last(), cells(widths[k - 1]), width) {
                assert(row_texts(after).drop_last() =~= row_texts(before));
            } else {
                assert(row_texts(after).drop_last() =~= row_texts(before).drop_last());
                assert(joined(row_texts(after)) =~= joined(row_texts(before)) + piece);
            }
        }
    }
}

/// A row is wider than the limit only if it holds a single piece that is too wide by itself.
pub proof fn law_rows_fit_the_width(
    pieces: Seq<Seq<char>>,
    widths: Seq<usize>,
    width: nat,
    k: nat,
    i: int,
)
    requires
        k <= pieces.len(),
        0 <= i < wrapped(pieces, widths, width, k).len(),
        width > 0,
    ensures
        ({
            let row = wrapped(pieces, widths, width, k)[i];
            row.width <= width || (row.start < k && row.text == pieces[row.start as int])
        }),
    decreases k,
{
    if k > 0 {
        lemma_wrapped_nonempty(pieces, widths, width, (k - 1) as nat);
        lemma_empty_row(pieces, widths, width, (k - 1) as nat);
        let before = wrapped(pieces, widths, width, (k - 1) as nat);
        if i < before.len() {
            law_rows_fit_the_width(pieces, widths, width, (k - 1) as nat, i);
        }
        let row = wrapped(pieces, widths, width, k)[i];
        if i == before.len() - 1 && row.width > width && before.last().width == 0 {
            assert(row.text =~= pieces[k - 1]);
        }
    }
}

/// The cells that the pieces from `start` to before `stop` take.
pub open spec fn cells_between(widths: Seq<usize>, start: int, stop: int) -> nat
    decreases stop - start,
{
    if stop <= start {
        0
    } else {
        cells_between(widths, start, stop - 1) + cells(widths[stop - 1])
    }
}

/// The piece before which row `i` ends: the next row starts there, or the text so far is over.
pub open spec fn row_end(rows: Seq<Row>, k: nat, i: int) -> int {
    if i + 1 < rows.len() {
        rows[i + 1].start as int
    } else {
        k as int
    }
}

/// The row from piece `start` to before piece `end` is closed by a line break.
pub open spec fn hard_break(pieces: Seq<Seq<char>>, start: int, end: int) -> bool {
    start < end && is_newline(pieces[end - 1])
}

/// Row `i` holds the pieces from its start to the start of the next row, less the line break
/// that closes it, and no line break but that. Without one the next row starts only because the
/// next piece no longer fits.
pub proof fn law_rows_break_where_they_must(
    pieces: Seq<Seq<char>>,
    widths: Seq<usize>,
    width: nat,
    k: nat,
    i: int,
)
    requires
        k <= pieces.len(),
        0 <= i < wrapped(pieces, widths, width, k).len(),
    ensures
        ({
            let rows = wrapped(pieces, widths, width, k);
            let row = rows[i];
            let start = row.start as int;
            let end = row_end(rows, k, i);
            let stop = if hard_break(pieces, start, end) {
                end - 1
            } else {
                end
            };
            &&& i == 0 ==> start == 0
            &&& start <= stop <= end <= k
            &&& row.text == joined(pieces.subrange(start, stop))
            &&& row.width == cells_between(widths, start, stop)
            &&& forall|j: int| start <= j < stop ==> !is_newline(#[trigger] pieces[j])
            &&& i + 1 == rows.len() ==> !hard_break(pieces, start, end)
            &&& i + 1 < rows.len() && !hard_break(pieces, start, end) ==> {
                &&& end < k && !is_newline(pieces[end])
                &&& start < end && row.width + cells(widths[end]) > width
            }
        }),
    decreases k,
{
    let rows = wrapped(pieces, widths, width, k);
    if k == 0 {
        assert(pieces.subrange(0, 0) =~= Seq::<Seq<char>>::empty());
        assert(rows[0].text =~= joined(pieces.subrange(0, 0)));
    } else {
        lemma_wrapped_nonempty(pieces, widths, width, (k - 1) as nat);
        lemma_empty_row(pieces, widths, width, (k - 1) as nat);
        let before = wrapped(pieces, widths, width, (k - 1) as nat);
        let last = before.len() - 1;
        law_rows_break_where_they_must(pieces, widths, width, (k - 1) as nat, last);
        if i < last {
            law_rows_break_where_they_must(pieces, widths, width, (k - 1) as nat, i);
        }
        let start = rows[i].start as int;
        if i == last && start < k {
            let so_far = pieces.subrange(start, k as int);
            assert(so_far.drop_last() =~= pieces.subrange(start, k - 1));
            assert(so_far.last() == pieces[k - 1]);
        }
        if i > last {
            assert(pieces.subrange(k as int, k as int) =~= Seq::<Seq<char>>::empty());
            assert(pieces.subrange(k - 1, k as int) =~= seq![pieces[k - 1]]);
            assert(seq![pieces[k - 1]].drop_last() =~= Seq::<Seq<char>>::empty());
            assert(joined(Seq::<Seq<char>>::empty()) =~= Seq::<char>::empty());
            assert(joined(seq![pieces[k - 1]]) =~= pieces[k - 1]);
            assert(cells_between(widths, k - 1, k - 1) == 0);
        }
    }
}

/// The last row starts after everything before it; with no cells taken it is empty.
proof fn lemma_empty_row(pieces: Seq<Seq<char>>, widths: Seq<usize>, width: nat, k: nat)
    requires
        k <= pieces.len(),
    ensures
        ({
            let row = wrapped(pieces, widths, width, k).last();
            &&& row.start <= k
            &&& row.width == 0 ==> row.text.len() == 0 && row.start == k
        }),
    decreases k,
{
    if k > 0 {
        lemma_empty_row(pieces, widths, width, (k - 1) as nat);
        lemma_wrapped_nonempty(pieces, widths, width, (k - 1) as nat);
    }
}

/// Every row lies within the text: the pieces before it and its own characters never add up
/// to more than the text has.
pub proof fn lemma_row_bounds(
    pieces: Seq<Seq<char>>,
    widths: Seq<usize>,
    width: nat,
    k: nat,
    i: int,
)
    requires
        k <= pieces.len(),
        solid(pieces),
        0 <= i < wrapped(pieces, widths, width, k).len(),
    ensures
        wrapped(pieces, widths, width, k)[i].start + wrapped(pieces, widths, width, k)[i].text.len()
            <= joined(pieces.take(k as int)).len(),
        wrapped(pieces, widths, width, k)[i].start <= k,
    decreases k,
{
    if k > 0 {
        lemma_wrapped_nonempty(pieces, widths, width, (k - 1) as nat);
        let before = wrapped(pieces, widths, width, (k - 1) as nat);
        lemma_joined_take(pieces, k - 1);
        let head = pieces.take(k as int);
        assert(solid(head)) by {
            assert forall|j: int| 0 <= j < head.len() implies (#[trigger] head[j]).len() > 0 by {
                assert(head[j] == pieces[j]);
            }
        }
        lemma_pieces_bound(head);
        let earlier = pieces.take(k - 1);
        assert(solid(earlier)) by {
            assert forall|j: int| 0 <= j < earlier.len() implies (#[trigger] earlier[j]).len()
                > 0 by {
                assert(earlier[j] == pieces[j]);
            }
        }
        lemma_pieces_bound(earlier);
        if i < before.len() {
            lemma_row_bounds(pieces, widths, width, (k - 1) as nat, i);
        }
    }
}

/// Rows are only ever added: there are never fewer after more pieces.
pub proof fn lemma_rows_grow(
    pieces: Seq<Seq<char>>,
    widths: Seq<usize>,
    width: nat,
    j: nat,
    k: nat,
)
    requires
        j <= k <= pieces.len(),
    ensures
        wrapped(pieces, widths, width, j).len() <= wrapped(pieces, widths, width, k).len(),
    decreases k,
{
    if j < k {
        lemma_rows_grow(pieces, widths, width, j, (k - 1) as nat);
        lemma_wrapped_nonempty(pieces, widths, width, (k - 1) as nat);
    }
}

/// The cursor is always on a row of the layout.
pub proof fn law_cursor_is_on_a_row(
    pieces: Seq<Seq<char>>,
    widths: Seq<usize>,
    width: nat,
    cursor: nat,
)
    requires
        cursor <= pieces.len(),
    ensures
        cursor_spot(pieces, widths, width, cursor).0 < wrapped(
            pieces,
            widths,
            width,
            pieces.len(),
        ).len(),
{
    lemma_wrapped_nonempty(pieces, widths, width, cursor);
    lemma_rows_grow(pieces, widths, width, cursor, pieces.len());
    if cursor < pieces.len() {
        lemma_rows_grow(pieces, widths, width, cursor + 1, pieces.len());
    }
}

/// Wraps `pieces`, whose display widths are `widths`, at `width` cells.
pub fn layout_pieces(
    pieces: &Vec<String>,
    widths: &Vec<usize>,
    cursor: usize,
    width: usize,
) -> (r: PieceLayout)
    requires
        widths@.len() == pieces@.len(),
    ensures
        r.shows(texts(pieces@), widths@, cursor as nat, width as nat),
{
    let width: usize = if width == 0 {
        1
    } else {
        width
    };
    let cursor: usize = if cursor > pieces.len() {
        pieces.len()
    } else {
        cursor
    };
    let ghost ps = texts(pieces@);
    let ghost ws = widths@;
    let mut rows: Vec<String> = Vec::new();
    rows.push(String::new());
    let mut row_starts: Vec<usize> = Vec::new();
    row_starts.push(0);
    let mut row_width: usize = 0;
    let mut cursor_row: usize = 0;
    let mut cursor_text = String::new();
    let mut index: usize = 0;
    proof {
        assert(texts(rows@) =~= row_texts(wrapped(ps, ws, width as nat, 0)));
        assert(nats(row_starts@) =~= self::row_starts(wrapped(ps, ws, width as nat, 0)));
    }
    while index < pieces.len()
        invariant
            ps == texts(pieces@),
            ws == widths@,
            ws.len() == ps.len() == pieces@.len(),
            width > 0,
            index <= pieces@.len(),
            cursor <= pieces@.len(),
            rows@.len() > 0,
            rows@.len() == row_starts@.len() == wrapped(ps, ws, width as nat, index as nat).len(),
            texts(rows@) == row_texts(wrapped(ps, ws, width as nat, index as nat)),
            nats(row_starts@) == self::row_starts(wrapped(ps, ws, width as nat, index as nat)),
            row_width == wrapped(ps, ws, width as nat, index as nat).last().width,
            index > cursor ==> cursor_row == cursor_spot(ps, ws, width as nat, cursor as nat).0,
            index > cursor ==> cursor_text@ == cursor_spot(ps, ws, width as nat, cursor as nat).1,
        decreases pieces@.len() - index,
    {
        let ghost before = wrapped(ps, ws, width as nat, index as nat);
        let ghost after = wrapped(ps, ws, width as nat, (index + 1) as nat);
        let ghost rows0 = rows@;
        let ghost starts0 = row_starts@;
        let piece = &pieces[index];
        let last = rows.len() - 1;
        proof {
            assert(ps[index as int] == piece@);
            assert(texts(rows@)[last as int] == rows@[last as int]@);
            assert(row_texts(before)[last as int] == before.last().text);
        }
        if same(piece.as_str(), "\n") {
            if index == cursor {
                cursor_row = last;
                cursor_text = rows[last].clone();
            }
            rows.push(String::new());
            row_starts.push(index + 1);
            row_width = 0;
        } else {
            let piece_width: usize = if widths[index] == 0 {
                1
            } else {
                widths[index]
            };
            if row_width > 0 && (row_width >= width || piece_width > width - row_width) {
                rows.push(String::new());
                row_starts.push(index);
                row_width = 0;
                proof {
                    assert(rows@.drop_last() =~= rows0);
                }
            }
            let last: usize = rows.len() - 1;
            if index == cursor {
                cursor_row = last;
                cursor_text = rows[last].clone();
            }
            let mut row = rows[last].clone();
            row.append(piece.as_str());
            rows.set(last, row);
            row_width = row_width + piece_width;
        }
        proof {
            assert(after.len() == rows@.len());
            assert forall|i: int| 0 <= i < rows@.len() implies texts(rows@)[i] == row_texts(
                after,
            )[i] by {
                if i < rows0.len() {
                    assert(texts(rows0)[i] == row_texts(before)[i]);
                }
                assert(row_texts(after)[i] =~= texts(rows@)[i]);
            }
            assert(texts(rows@) =~= row_texts(after));
            assert forall|i: int| 0 <= i < rows@.len() implies nats(row_starts@)[i]
                == self::row_starts(after)[i] by {
                if i < starts0.len() {
                    assert(nats(starts0)[i] == self::row_starts(before)[i]);
                }
            }
            assert(nats(row_starts@) =~= self::row_starts(after));
        }
        index += 1;
    }
    if cursor == pieces.len() {
        let last = rows.len() - 1;
        proof {
            let all = wrapped(ps, ws, width as nat, ps.len());
            assert(texts(rows@)[last as int] == rows@[last as int]@);
            assert(row_texts(all)[last as int] == all.last().text);
        }
        cursor_row = last;
        cursor_text = rows[last].clone();
    }
    PieceLayout { rows, row_starts, cursor_row, cursor_text }
}

/// Wraps `value` into rows of `width` cells and finds the cursor, which stands before grapheme
/// cluster `cursor` or at the end.
pub fn prompt_layout(value: &str, cursor: usize, width: usize) -> (r: PromptLayout)
    ensures
        r.shows(value@, cursor as nat, width as nat),
        forall|i: int|
            0 <= i < r.rows@.len() ==> r.row_starts@[i] + (#[trigger] r.rows@[i])@.len()
                <= usize::MAX,
{
    let total: usize = value.unicode_len();
    let pieces = split_graphemes(value);
    let ghost ps = texts(pieces@);
    let mut widths: Vec<usize> = Vec::new();
    let mut i: usize = 0;
    while i < pieces.len()
        invariant
            ps == texts(pieces@),
            i <= pieces@.len(),
            widths@ == widths_of(ps).take(i as int),
        decreases pieces@.len() - i,
    {
        widths.push(measure(pieces[i].as_str()));
        proof {
            assert(ps[i as int] == pieces@[i as int]@);
            assert(widths@ =~= widths_of(ps).take(i + 1));
        }
        i += 1;
    }
    assert(widths@ =~= widths_of(ps));
    let layout = layout_pieces(&pieces, &widths, cursor, width);
    let column = count_graphemes(layout.cursor_text.as_str());
    proof {
        let rows = prompt_rows(value@, width as nat);
        assert(ps.take(ps.len() as int) =~= ps);
        assert(texts(layout.rows@).len() == row_texts(rows).len());
        assert(nats(layout.row_starts@).len() == row_starts(rows).len());
        assert forall|i: int| 0 <= i < layout.rows@.len() implies layout.row_starts@[i] + (
        #[trigger] layout.rows@[i])@.len() <= total by {
            assert(texts(layout.rows@)[i] == row_texts(rows)[i]);
            assert(nats(layout.row_starts@)[i] == row_starts(rows)[i]);
            lemma_row_bounds(ps, widths_of(ps), at_least_one(width as nat), ps.len(), i);
        }
    }
    PromptLayout {
        rows: layout.rows,
        row_starts: layout.row_starts,
        cursor_row: layout.cursor_row,
        cursor_column: column,
    }
}

} // verus!
