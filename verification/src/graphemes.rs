//! Grapheme clusters of a text and the terminal cells they take.
use vstd::prelude::*;

verus! {

/// The texts of a list of strings.
pub open spec fn texts(v: Seq<String>) -> Seq<Seq<char>> {
    v.map_values(|s: String| s@)
}

/// All pieces, one after the other.
pub open spec fn joined(pieces: Seq<Seq<char>>) -> Seq<char>
    decreases pieces.len(),
{
    if pieces.len() == 0 {
        seq![]
    } else {
        joined(pieces.drop_last()) + pieces.last()
    }
}

/// No piece is empty.
pub open spec fn solid(pieces: Seq<Seq<char>>) -> bool {
    forall|i: int| 0 <= i < pieces.len() ==> (#[trigger] pieces[i]).len() > 0
}

/// Where piece `k` starts: the number of characters in the pieces before it.
/// Past the last piece it is the end of the text.
pub open spec fn piece_offset(pieces: Seq<Seq<char>>, k: nat) -> nat {
    if k < pieces.len() {
        joined(pieces.take(k as int)).len()
    } else {
        joined(pieces).len()
    }
}

/// The first piece that starts at or after `offset`, or the number of pieces.
pub open spec fn first_piece_from(pieces: Seq<Seq<char>>, offset: nat) -> nat {
    first_piece_from_at(pieces, offset, 0)
}

pub open spec fn first_piece_from_at(pieces: Seq<Seq<char>>, offset: nat, k: nat) -> nat
    decreases pieces.len() - k,
{
    if k >= pieces.len() {
        pieces.len()
    } else if piece_offset(pieces, k) >= offset {
        k
    } else {
        first_piece_from_at(pieces, offset, k + 1)
    }
}

/// The extended grapheme clusters of a text, as `unicode_segmentation` finds them.
pub uninterp spec fn graphemes(s: Seq<char>) -> Seq<Seq<char>>;

/// The number of terminal cells of a text, as `ratatui::text::Span::width` measures it.
pub uninterp spec fn display_width(s: Seq<char>) -> usize;

/// Splits `s` with `UnicodeSegmentation::graphemes(s, true)`. The clusters depend on the
/// text alone; none is empty, and one after the other they give the text back.
#[verifier::external_body]
pub(crate) fn split_graphemes(s: &str) -> (r: Vec<String>)
    ensures
        texts(r@) == graphemes(s@),
        solid(texts(r@)),
        joined(texts(r@)) == s@,
{
    unicode_segmentation::UnicodeSegmentation::graphemes(s, true).map(|g| g.to_string()).collect()
}

/// Measures `s` with `ratatui::text::Span::width`, which depends on the text alone.
#[verifier::external_body]
pub(crate) fn measure(s: &str) -> (r: usize)
    ensures
        r == display_width(s@),
{
    ratatui::text::Span::raw(s).width()
}

pub proof fn lemma_joined_take(pieces: Seq<Seq<char>>, k: int)
    requires
        0 <= k < pieces.len(),
    ensures
        joined(pieces.take(k + 1)) == joined(pieces.take(k)) + pieces[k],
{
    assert(pieces.take(k + 1).drop_last() =~= pieces.take(k));
}

/// The pieces before `k` make up a prefix of the whole text.
pub proof fn lemma_joined_prefix(pieces: Seq<Seq<char>>, k: int)
    requires
        0 <= k <= pieces.len(),
    ensures
        joined(pieces.take(k)).len() <= joined(pieces).len(),
        joined(pieces).take(joined(pieces.take(k)).len() as int) == joined(pieces.take(k)),
    decreases pieces.len() - k,
{
    if k == pieces.len() {
        assert(pieces.take(k) =~= pieces);
        assert(joined(pieces).take(joined(pieces).len() as int) =~= joined(pieces));
    } else {
        lemma_joined_prefix(pieces, k + 1);
        lemma_joined_take(pieces, k);
        let a = joined(pieces.take(k));
        let b = joined(pieces.take(k + 1));
        assert(b.take(a.len() as int) =~= a);
        assert(joined(pieces).take(a.len() as int) =~= joined(pieces).take(b.len() as int).take(
            a.len() as int,
        ));
    }
}

/// With no empty piece there are at most as many pieces as characters.
pub proof fn lemma_pieces_bound(pieces: Seq<Seq<char>>)
    requires
        solid(pieces),
    ensures
        pieces.len() <= joined(pieces).len(),
    decreases pieces.len(),
{
    if pieces.len() > 0 {
        let p = pieces.drop_last();
        assert forall|i: int| 0 <= i < p.len() implies (#[trigger] p[i]).len() > 0 by {
            assert(p[i] == pieces[i]);
        }
        lemma_pieces_bound(p);
        assert(pieces[pieces.len() - 1].len() > 0);
    }
}

/// How many grapheme clusters `s` has.
pub fn count_graphemes(s: &str) -> (r: usize)
    ensures
        r == graphemes(s@).len(),
        r <= s@.len(),
{
    let pieces = split_graphemes(s);
    proof {
        lemma_pieces_bound(texts(pieces@));
    }
    pieces.len()
}

/// Where piece `k` starts, in characters; the end of the text for a larger `k`.
pub fn offset_of(pieces: &Vec<String>, k: usize) -> (r: usize)
    requires
        joined(texts(pieces@)).len() <= usize::MAX,
    ensures
        r == piece_offset(texts(pieces@), k as nat),
{
    let ghost ps = texts(pieces@);
    let mut i: usize = 0;
    let mut offset: usize = 0;
    proof {
        assert(ps.take(0) =~= Seq::<Seq<char>>::empty());
    }
    while i < pieces.len() && i < k
        invariant
            ps == texts(pieces@),
            i <= pieces@.len(),
            i <= k,
            offset == joined(ps.take(i as int)).len(),
            joined(ps).len() <= usize::MAX,
        decreases pieces@.len() - i,
    {
        let n = vstd::string::StrSliceExecFns::unicode_len(pieces[i].as_str());
        proof {
            lemma_joined_take(ps, i as int);
            lemma_joined_prefix(ps, i + 1);
        }
        offset = offset + n;
        i += 1;
    }
    proof {
        if k >= ps.len() {
            assert(ps.take(i as int) =~= ps);
        }
    }
    offset
}

/// The first piece that starts at or after `offset`, or the number of pieces.
pub fn piece_from(pieces: &Vec<String>, offset: usize) -> (r: usize)
    requires
        joined(texts(pieces@)).len() <= usize::MAX,
    ensures
        r == first_piece_from(texts(pieces@), offset as nat),
{
    let ghost ps = texts(pieces@);
    let mut i: usize = 0;
    let mut at: usize = 0;
    proof {
        assert(ps.take(0) =~= Seq::<Seq<char>>::empty());
    }
    while i < pieces.len()
        invariant
            ps == texts(pieces@),
            i <= pieces@.len(),
            at == joined(ps.take(i as int)).len(),
            joined(ps).len() <= usize::MAX,
            first_piece_from(ps, offset as nat) == first_piece_from_at(ps, offset as nat, i as nat),
        decreases pieces@.len() - i,
    {
        if at >= offset {
            return i;
        }
        let n = vstd::string::StrSliceExecFns::unicode_len(pieces[i].as_str());
        proof {
            lemma_joined_take(ps, i as int);
            lemma_joined_prefix(ps, i + 1);
        }
        at = at + n;
        i += 1;
    }
    i
}

} // verus!
