use vstd::prelude::*;
use crate::paddle::Paddle;
use crate::HEIGHT;
use crate::PADDLE_HEIGHT;
use crate::WIDTH;

verus! {

/// The glyph for one decimal digit.
pub open spec fn digit_char(d: nat) -> char {
    if d == 0 {
        '0'
    } else if d == 1 {
        '1'
    } else if d == 2 {
        '2'
    } else if d == 3 {
        '3'
    } else if d == 4 {
        '4'
    } else if d == 5 {
        '5'
    } else if d == 6 {
        '6'
    } else if d == 7 {
        '7'
    } else if d == 8 {
        '8'
    } else {
        '9'
    }
}

/// The decimal digits of `n`, most significant first, no leading zeros.
pub open spec fn spec_decimal(n: nat) -> Seq<char>
    decreases n,
{
    if n < 10 {
        seq![digit_char(n)]
    } else {
        spec_decimal(n / 10).push(digit_char(n % 10))
    }
}

/// The escape sequence that erases the screen and homes the cursor.
pub open spec fn spec_clear() -> Seq<char> {
    seq!['\x1B', '[', '2', 'J', '\x1B', '[', '1', ';', '1', 'H']
}

/// The escape sequence that moves the cursor to `row`, `col` (1-indexed).
pub open spec fn spec_move_to(row: nat, col: nat) -> Seq<char> {
    seq!['\x1B', '['] + spec_decimal(row) + seq![';'] + spec_decimal(col) + seq!['H']
}

/// One paddle's glyphs: a solid block on each of the `rows` grid rows
/// from `p.y`, at column `p.x`, in 1-indexed cursor coordinates.
pub open spec fn spec_paddle_glyphs(p: Paddle, rows: nat) -> Seq<char>
    decreases rows,
{
    if rows == 0 {
        Seq::empty()
    } else {
        spec_paddle_glyphs(p, (rows - 1) as nat) + spec_move_to(
            (p.y + rows) as nat,
            (p.x + 1) as nat,
        ) + seq![
            '\u{2588}',
        ]
    }
}

/// The left player's score label.
pub open spec fn spec_label_one() -> Seq<char> {
    seq!['P', 'l', 'a', 'y', 'e', 'r', ' ', '1', ':', ' ']
}

/// The right player's score label.
pub open spec fn spec_label_two() -> Seq<char> {
    seq!['P', 'l', 'a', 'y', 'e', 'r', ' ', '2', ':', ' ']
}

/// A whole frame: erase and home, both paddles, the ball glyph at its
/// truncated grid cell, and the two score lines on the footer row.
pub open spec fn spec_frame(
    left: Paddle,
    right: Paddle,
    ball_row: nat,
    ball_col: nat,
    left_score: u32,
    right_score: u32,
) -> Seq<char> {
    spec_clear() + spec_paddle_glyphs(left, PADDLE_HEIGHT as nat) + spec_paddle_glyphs(
        right,
        PADDLE_HEIGHT as nat,
    ) + spec_move_to(ball_row + 1, ball_col + 1) + seq!['O'] + spec_move_to(
        (HEIGHT + 1) as nat,
        (WIDTH / 2 - 10) as nat,
    ) + spec_label_one() + spec_decimal(left_score as nat) + seq!['\n'] + spec_move_to(
        (HEIGHT + 1) as nat,
        (WIDTH / 2 + 5) as nat,
    ) + spec_label_two() + spec_decimal(right_score as nat) + seq!['\n']
}

/// The digit's glyph, as `digit_char` gives it.
fn digit_glyph(d: u64) -> (c: char)
    requires
        d < 10,
    ensures
        c == digit_char(d as nat),
{
    if d == 0 {
        '0'
    } else if d == 1 {
        '1'
    } else if d == 2 {
        '2'
    } else if d == 3 {
        '3'
    } else if d == 4 {
        '4'
    } else if d == 5 {
        '5'
    } else if d == 6 {
        '6'
    } else if d == 7 {
        '7'
    } else if d == 8 {
        '8'
    } else {
        '9'
    }
}

/// Append the decimal digits of `n`, most significant first.
fn push_decimal(out: &mut Vec<char>, n: u64)
    ensures
        final(out)@ == old(out)@ + spec_decimal(n as nat),
    decreases n,
{
    if n < 10 {
        out.push(digit_glyph(n));
        assert(out@ =~= old(out)@ + spec_decimal(n as nat));
    } else {
        push_decimal(out, n / 10);
        out.push(digit_glyph(n % 10));
        assert(out@ =~= old(out)@ + spec_decimal(n as nat));
    }
}

/// Append the cursor-positioning escape sequence for `row`, `col`.
fn push_move_to(out: &mut Vec<char>, row: usize, col: usize)
    ensures
        final(out)@ == old(out)@ + spec_move_to(row as nat, col as nat),
{
    out.push('\x1B');
    out.push('[');
    push_decimal(out, row as u64);
    out.push(';');
    push_decimal(out, col as u64);
    out.push('H');
    assert(out@ =~= old(out)@ + spec_move_to(row as nat, col as nat));
}

/// Append one paddle's block glyphs, one per row of its height.
fn push_paddle(out: &mut Vec<char>, p: &Paddle)
    requires
        p.wf(),
    ensures
        final(out)@ == old(out)@ + spec_paddle_glyphs(*p, PADDLE_HEIGHT as nat),
{
    let mut i: usize = 0;
    while i < PADDLE_HEIGHT
        invariant
            p.wf(),
            i <= PADDLE_HEIGHT,
            out@ == old(out)@ + spec_paddle_glyphs(*p, i as nat),
        decreases PADDLE_HEIGHT - i,
    {
        push_move_to(out, p.y + i + 1, p.x + 1);
        out.push('\u{2588}');
        assert(out@ =~= old(out)@ + spec_paddle_glyphs(*p, (i + 1) as nat));
        i = i + 1;
    }
}

/// Append the left player's score label.
fn push_label_one(out: &mut Vec<char>)
    ensures
        final(out)@ == old(out)@ + spec_label_one(),
{
    out.push('P');
    out.push('l');
    out.push('a');
    out.push('y');
    out.push('e');
    out.push('r');
    out.push(' ');
    out.push('1');
    out.push(':');
    out.push(' ');
    assert(out@ =~= old(out)@ + spec_label_one());
}

/// Append the right player's score label.
fn push_label_two(out: &mut Vec<char>)
    ensures
        final(out)@ == old(out)@ + spec_label_two(),
{
    out.push('P');
    out.push('l');
    out.push('a');
    out.push('y');
    out.push('e');
    out.push('r');
    out.push(' ');
    out.push('2');
    out.push(':');
    out.push(' ');
    assert(out@ =~= old(out)@ + spec_label_two());
}

/// The glyphs of one full redraw, exactly as `spec_frame` lays them out.
/// The ball's position arrives already truncated to grid coordinates.
pub fn render_frame(
    left: &Paddle,
    right: &Paddle,
    ball_row: usize,
    ball_col: usize,
    left_score: u32,
    right_score: u32,
) -> (r: Vec<char>)
    requires
        left.wf(),
        right.wf(),
        ball_row < usize::MAX,
        ball_col < usize::MAX,
    ensures
        r@ == spec_frame(*left, *right, ball_row as nat, ball_col as nat, left_score, right_score),
{
    let mut out: Vec<char> = Vec::new();
    out.push('\x1B');
    out.push('[');
    out.push('2');
    out.push('J');
    out.push('\x1B');
    out.push('[');
    out.push('1');
    out.push(';');
    out.push('1');
    out.push('H');
    assert(out@ =~= spec_clear());
    push_paddle(&mut out, left);
    push_paddle(&mut out, right);
    push_move_to(&mut out, ball_row + 1, ball_col + 1);
    out.push('O');
    push_move_to(&mut out, HEIGHT + 1, WIDTH / 2 - 10);
    push_label_one(&mut out);
    push_decimal(&mut out, left_score as u64);
    out.push('\n');
    push_move_to(&mut out, HEIGHT + 1, WIDTH / 2 + 5);
    push_label_two(&mut out);
    push_decimal(&mut out, right_score as u64);
    out.push('\n');
    assert(out@ =~= spec_frame(
        *left,
        *right,
        ball_row as nat,
        ball_col as nat,
        left_score,
        right_score,
    ));
    out
}

} // verus!
