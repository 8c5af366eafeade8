//! What a reader of a face's line finds in it, and that it finds the three
//! points that the line was written from.

use crate::brush::{point_text, side_text, Point3};
use crate::decimal::{
    decimal_digits, lemma_read_micro_text, magnitude, micro_text, padded_digits,
    read_micro,
};
use vstd::prelude::*;
use vstd::string::*;

verus! {

/// The number of characters before the first space, or the whole length where
/// there is no space.
pub open spec fn word_len(s: Seq<char>) -> nat
    decreases s.len(),
{
    if s.len() == 0 || s[0] == ' ' {
        0
    } else {
        1 + word_len(s.skip(1))
    }
}

/// The characters before the first space.
pub open spec fn first_word(s: Seq<char>) -> Seq<char> {
    s.take(word_len(s) as int)
}

/// The characters after the first space; nothing where there is no space.
pub open spec fn after_word(s: Seq<char>) -> Seq<char> {
    if word_len(s) < s.len() {
        s.skip(word_len(s) as int + 1)
    } else {
        Seq::empty()
    }
}

/// Whether no character of `s` is a space.
pub open spec fn spaceless(s: Seq<char>) -> bool {
    forall|i: int| 0 <= i < s.len() ==> s[i] != ' '
}

/// The three coordinates of a point as numbers.
pub open spec fn coordinates(p: Point3) -> (int, int, int) {
    (p.x as int, p.y as int, p.z as int)
}

/// A bracketed point at the start of `s`: the words `(`, three coordinates and
/// `)`, each followed by one space. Gives the coordinates and what follows.
pub open spec fn read_point(s: Seq<char>) -> Option<((int, int, int), Seq<char>)> {
    let s1 = after_word(s);
    let s2 = after_word(s1);
    let s3 = after_word(s2);
    let s4 = after_word(s3);
    if first_word(s) == seq!['('] && first_word(s4) == seq![')'] {
        match (read_micro(first_word(s1)), read_micro(first_word(s2)), read_micro(first_word(s3))) {
            (Some(x), Some(y), Some(z)) => Some(((x, y, z), after_word(s4))),
            _ => None,
        }
    } else {
        None
    }
}

/// The three points at the start of a face's line. What follows them, the
/// texture name and the alignment fields, is not looked at.
pub open spec fn read_side(line: Seq<char>) -> Option<
    ((int, int, int), (int, int, int), (int, int, int)),
> {
    match read_point(line) {
        Some((first, after_first)) => match read_point(after_first) {
            Some((second, after_second)) => match read_point(after_second) {
                Some((third, _)) => Some((first, second, third)),
                None => None,
            },
            None => None,
        },
        None => None,
    }
}

/// A word without a space, a space, and more text: the first word is that word
/// and the rest is that text.
pub proof fn lemma_word_split(w: Seq<char>, rest: Seq<char>)
    requires
        spaceless(w),
    ensures
        word_len(w + seq![' '] + rest) == w.len(),
        first_word(w + seq![' '] + rest) == w,
        after_word(w + seq![' '] + rest) == rest,
    decreases w.len(),
{
    let s = w + seq![' '] + rest;
    if w.len() == 0 {
        assert(s[0] == ' ');
    } else {
        assert(s[0] == w[0]);
        let tail = w.skip(1);
        assert(spaceless(tail)) by {
            assert forall|i: int| 0 <= i < tail.len() implies tail[i] != ' ' by {
                assert(tail[i] == w[i + 1]);
            }
        }
        lemma_word_split(tail, rest);
        assert(s.skip(1) =~= tail + seq![' '] + rest);
    }
    assert(word_len(s) == w.len());
    assert(first_word(s) =~= w);
    assert(after_word(s) =~= rest);
}

/// The digits of a number hold no space.
proof fn lemma_decimal_digits_spaceless(n: nat)
    ensures
        spaceless(decimal_digits(n)),
    decreases n,
{
    if n >= 10 {
        lemma_decimal_digits_spaceless(n / 10);
    }
}

/// The padded digits of a number hold no space.
proof fn lemma_padded_digits_spaceless(f: nat, width: nat)
    ensures
        spaceless(padded_digits(f, width)),
    decreases width,
{
    if width > 0 {
        lemma_padded_digits_spaceless(f / 10, (width - 1) as nat);
    }
}

/// The text of a coordinate holds no space.
pub proof fn lemma_micro_text_spaceless(v: int)
    ensures
        spaceless(micro_text(v)),
{
    lemma_decimal_digits_spaceless(magnitude(v) / 1_000_000);
    lemma_padded_digits_spaceless(magnitude(v) % 1_000_000, 6);
}

/// A point written between brackets and read back gives its coordinates, and
/// leaves what followed the closing bracket's space.
pub proof fn lemma_read_point_text(p: Point3, rest: Seq<char>)
    ensures
        read_point("( "@ + point_text(p) + " ) "@ + rest) == Some((coordinates(p), rest)),
{
    reveal_strlit("( ");
    reveal_strlit(" ) ");
    reveal_strlit(" ");
    let mx = micro_text(p.x as int);
    let my = micro_text(p.y as int);
    let mz = micro_text(p.z as int);
    lemma_micro_text_spaceless(p.x as int);
    lemma_micro_text_spaceless(p.y as int);
    lemma_micro_text_spaceless(p.z as int);
    lemma_read_micro_text(p.x as int);
    lemma_read_micro_text(p.y as int);
    lemma_read_micro_text(p.z as int);
    let space = seq![' '];
    let s5 = rest;
    let s4 = seq![')'] + space + s5;
    let s3 = mz + space + s4;
    let s2 = my + space + s3;
    let s1 = mx + space + s2;
    let s0 = seq!['('] + space + s1;
    let text = "( "@ + point_text(p) + " ) "@ + rest;
    assert("( "@ =~= seq!['(', ' ']);
    assert(" ) "@ =~= seq![' ', ')', ' ']);
    assert(" "@ =~= space);
    assert(point_text(p) =~= mx + space + my + space + mz);
    assert(text =~= s0);
    assert(spaceless(seq!['(']));
    assert(spaceless(seq![')']));
    lemma_word_split(seq!['('], s1);
    lemma_word_split(mx, s2);
    lemma_word_split(my, s3);
    lemma_word_split(mz, s4);
    lemma_word_split(seq![')'], s5);
}

/// Reading the line of a face gives the three points that it was written
/// from, to the last printed decimal, whatever the texture name holds.
pub proof fn lemma_read_side_text(points: (Point3, Point3, Point3), texture: Seq<char>)
    ensures
        read_side(side_text(points, texture)) == Some(
            (coordinates(points.0), coordinates(points.1), coordinates(points.2)),
        ),
{
    reveal_strlit(" ) ( ");
    reveal_strlit("( ");
    reveal_strlit(" ) ");
    let tail = texture + " 0 0 0 0.500000 0.500000 0 0 0\n"@;
    let r2 = "( "@ + point_text(points.2) + " ) "@ + tail;
    let r1 = "( "@ + point_text(points.1) + " ) "@ + r2;
    let r0 = "( "@ + point_text(points.0) + " ) "@ + r1;
    assert(" ) ( "@ =~= " ) "@ + "( "@);
    assert(side_text(points, texture) =~= r0);
    lemma_read_point_text(points.0, r1);
    lemma_read_point_text(points.1, r2);
    lemma_read_point_text(points.2, tail);
}

} // verus!
