//! The picture as a text file.
//!
//! A picture is written in the plain pixel-map format: the line `P3`, a
//! line with width and height, the line `255`, and then one line a pixel,
//! row by row from the top, each row from the left.

use vstd::prelude::*;
use vstd::string::StringExecFns;
use crate::color::pixel_line;
use crate::color::Rgb;
use crate::image::Image;
use crate::text::decimal;
use crate::text::digit;
use crate::text::lemma_decimal_round_trip;
use crate::text::push_decimal;

verus! {

/// The three lines before the pixels.
pub open spec fn header(image: Image) -> Seq<char> {
    "P3\n"@ + decimal(image.width as nat) + " "@ + decimal(image.height as nat) + "\n255\n"@
}

/// The lines of the pixels of one row, from the left.
pub open spec fn row_lines(row: Seq<Rgb>) -> Seq<char>
    decreases row.len(),
{
    if row.len() == 0 {
        Seq::empty()
    } else {
        row_lines(row.drop_last()) + pixel_line(row.last())
    }
}

/// The lines of the pixels of the given rows, from the top.
pub open spec fn rows_lines(rows: Seq<Vec<Rgb>>) -> Seq<char>
    decreases rows.len(),
{
    if rows.len() == 0 {
        Seq::empty()
    } else {
        rows_lines(rows.drop_last()) + row_lines(rows.last()@)
    }
}

/// The whole file.
pub open spec fn encoded(image: Image, rows: Seq<Vec<Rgb>>) -> Seq<char> {
    header(image) + rows_lines(rows)
}

/// Appends the three lines before the pixels to `out`.
pub fn write_header(image: &Image, out: &mut String)
    ensures
        final(out)@ == old(out)@ + header(*image),
{
    let ghost before = out@;
    out.append("P3\n");
    push_decimal(out, image.width as u64);
    out.append(" ");
    push_decimal(out, image.height as u64);
    out.append("\n255\n");
    assert(out@ =~= before + header(*image));
}

/// Appends the lines of the pixels of one row to `out`.
pub fn write_row(row: &Vec<Rgb>, out: &mut String)
    ensures
        final(out)@ == old(out)@ + row_lines(row@),
{
    let ghost before = out@;
    let mut j: usize = 0;
    assert(row@.take(0) =~= Seq::<Rgb>::empty());
    while j < row.len()
        invariant
            j <= row.len(),
            out@ == before + row_lines(row@.take(j as int)),
        decreases row.len() - j,
    {
        let ghost so_far = out@;
        row[j].write(out);
        proof {
            let next = row@.take(j + 1);
            assert(next.drop_last() =~= row@.take(j as int));
            assert(next.last() == row@[j as int]);
            assert(out@ =~= before + row_lines(next));
        }
        j += 1;
    }
    assert(row@.take(row.len() as int) =~= row@);
}

/// The whole file of the picture whose rows are `rows`.
pub fn encode(image: &Image, rows: &Vec<Vec<Rgb>>) -> (text: String)
    ensures
        text@ == encoded(*image, rows@),
{
    let mut text = String::new();
    write_header(image, &mut text);
    assert(text@ =~= header(*image));
    let mut i: usize = 0;
    assert(rows@.take(0) =~= Seq::<Vec<Rgb>>::empty());
    while i < rows.len()
        invariant
            i <= rows.len(),
            text@ == header(*image) + rows_lines(rows@.take(i as int)),
        decreases rows.len() - i,
    {
        write_row(&rows[i], &mut text);
        proof {
            let next = rows@.take(i + 1);
            assert(next.drop_last() =~= rows@.take(i as int));
            assert(next.last() == rows@[i as int]);
            assert(text@ =~= header(*image) + rows_lines(next));
        }
        i += 1;
    }
    assert(rows@.take(rows.len() as int) =~= rows@);
    text
}

/// The number of line feeds in a text.
pub open spec fn line_feeds(text: Seq<char>) -> nat
    decreases text.len(),
{
    if text.len() == 0 {
        0
    } else {
        line_feeds(text.drop_last()) + if text.last() == '\n' { 1nat } else { 0nat }
    }
}

/// The number of pixels in the given rows.
pub open spec fn pixel_count(rows: Seq<Vec<Rgb>>) -> nat
    decreases rows.len(),
{
    if rows.len() == 0 {
        0
    } else {
        pixel_count(rows.drop_last()) + rows.last()@.len()
    }
}

/// The line feeds of two texts joined are those of both.
pub proof fn lemma_line_feeds_add(a: Seq<char>, b: Seq<char>)
    ensures
        line_feeds(a + b) == line_feeds(a) + line_feeds(b),
    decreases b.len(),
{
    if b.len() == 0 {
        assert(a + b =~= a);
    } else {
        lemma_line_feeds_add(a, b.drop_last());
        assert((a + b).drop_last() =~= a + b.drop_last());
        assert((a + b).last() == b.last());
    }
}

/// A numeral holds no line feed.
proof fn lemma_decimal_is_one_line(n: nat)
    ensures
        line_feeds(decimal(n)) == 0,
{
    lemma_decimal_round_trip(n);
    lemma_digits_are_one_line(decimal(n));
}

/// A text of numerals holds no line feed.
proof fn lemma_digits_are_one_line(text: Seq<char>)
    requires
        forall|i: int| 0 <= i < text.len() ==> text[i] == digit(crate::text::digit_value(text[i])),
    ensures
        line_feeds(text) == 0,
    decreases text.len(),
{
    if text.len() > 0 {
        let head = text.drop_last();
        assert forall|i: int| 0 <= i < head.len() implies head[i] == digit(
            crate::text::digit_value(head[i]),
        ) by {
            assert(head[i] == text[i]);
        }
        lemma_digits_are_one_line(head);
        assert(text.last() == text[text.len() - 1]);
    }
}

/// A picture is written on one line a pixel, after the three lines of the
/// header.
pub proof fn lemma_one_line_a_pixel(image: Image, rows: Seq<Vec<Rgb>>)
    ensures
        line_feeds(header(image)) == 3,
        line_feeds(rows_lines(rows)) == pixel_count(rows),
        line_feeds(encoded(image, rows)) == 3 + pixel_count(rows),
    decreases rows.len(),
{
    lemma_header_is_three_lines(image);
    lemma_rows_are_lines(rows);
    lemma_line_feeds_add(header(image), rows_lines(rows));
}

/// The header is three lines.
proof fn lemma_header_is_three_lines(image: Image)
    ensures
        line_feeds(header(image)) == 3,
{
    reveal_strlit("P3\n");
    reveal_strlit(" ");
    reveal_strlit("\n255\n");
    let magic = "P3\n"@;
    let gap = " "@;
    let depth = "\n255\n"@;
    assert(line_feeds(magic) == 1) by {
        reveal_with_fuel(line_feeds, 4);
        assert(magic =~= seq!['P', '3', '\n']);
    }
    assert(line_feeds(gap) == 0) by {
        reveal_with_fuel(line_feeds, 2);
        assert(gap =~= seq![' ']);
    }
    assert(line_feeds(depth) == 2) by {
        reveal_with_fuel(line_feeds, 6);
        assert(depth =~= seq!['\n', '2', '5', '5', '\n']);
    }
    let w = decimal(image.width as nat);
    let h = decimal(image.height as nat);
    lemma_decimal_is_one_line(image.width as nat);
    lemma_decimal_is_one_line(image.height as nat);
    lemma_line_feeds_add(magic, w);
    lemma_line_feeds_add(magic + w, gap);
    lemma_line_feeds_add(magic + w + gap, h);
    lemma_line_feeds_add(magic + w + gap + h, depth);
}

/// The line of a pixel is one line.
proof fn lemma_pixel_is_one_line(pixel: Rgb)
    ensures
        line_feeds(pixel_line(pixel)) == 1,
{
    let r = decimal(pixel.r as nat);
    let g = decimal(pixel.g as nat);
    let b = decimal(pixel.b as nat);
    let gap = seq![' '];
    let end = seq!['\n'];
    assert(line_feeds(gap) == 0) by {
        reveal_with_fuel(line_feeds, 2);
    }
    assert(line_feeds(end) == 1) by {
        reveal_with_fuel(line_feeds, 2);
    }
    lemma_decimal_is_one_line(pixel.r as nat);
    lemma_decimal_is_one_line(pixel.g as nat);
    lemma_decimal_is_one_line(pixel.b as nat);
    lemma_line_feeds_add(r, gap);
    lemma_line_feeds_add(r + gap, g);
    lemma_line_feeds_add(r + gap + g, gap);
    lemma_line_feeds_add(r + gap + g + gap, b);
    lemma_line_feeds_add(r + gap + g + gap + b, end);
}

/// The lines of a row are as many as its pixels.
proof fn lemma_row_is_lines(row: Seq<Rgb>)
    ensures
        line_feeds(row_lines(row)) == row.len(),
    decreases row.len(),
{
    if row.len() > 0 {
        lemma_row_is_lines(row.drop_last());
        lemma_pixel_is_one_line(row.last());
        lemma_line_feeds_add(row_lines(row.drop_last()), pixel_line(row.last()));
    }
}

/// The lines of the rows are as many as their pixels.
proof fn lemma_rows_are_lines(rows: Seq<Vec<Rgb>>)
    ensures
        line_feeds(rows_lines(rows)) == pixel_count(rows),
    decreases rows.len(),
{
    if rows.len() > 0 {
        lemma_rows_are_lines(rows.drop_last());
        lemma_row_is_lines(rows.last()@);
        lemma_line_feeds_add(rows_lines(rows.drop_last()), row_lines(rows.last()@));
    }
}

} // verus!
