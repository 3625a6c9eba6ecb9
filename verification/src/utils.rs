//! HUD text composition: a pure formatting function from the frame-rate
//! sample, the input vector and the jump state to the three-line HUD string.
//!
//! Numbers are rendered from the fixed-point representation: the frame rate
//! with no decimal places right-aligned to width four, each input axis with
//! two decimal places right-aligned to width four.

use vstd::prelude::*;

use crate::components::{JumpState, Vec2i};

verus! {

/// The decimal digit character for a value between 0 and 9.
pub open spec fn digit_char(d: int) -> char {
    if d == 0 {
        '0'
    } else if d == 1 {
        '1'
    } else if d == 2 {
        '2'
    } else if d == 3 {
        '3'
    } else if d == 4 {
        '4'
    } else if d == 5 {
        '5'
    } else if d == 6 {
        '6'
    } else if d == 7 {
        '7'
    } else if d == 8 {
        '8'
    } else {
        '9'
    }
}

/// The decimal digits of a non-negative number, most significant first.
pub open spec fn dec_digits(n: int) -> Seq<char>
    decreases n,
{
    if n < 10 {
        seq![digit_char(n)]
    } else {
        dec_digits(n / 10).push(digit_char(n % 10))
    }
}

/// A run of `k` space characters.
pub open spec fn space_chars(k: int) -> Seq<char>
    decreases k,
{
    if k <= 0 {
        Seq::empty()
    } else {
        space_chars(k - 1).push(' ')
    }
}

/// Right-aligns to width four by padding with spaces on the left.
pub open spec fn pad4(s: Seq<char>) -> Seq<char> {
    if s.len() >= 4 {
        s
    } else {
        space_chars(4 - s.len()) + s
    }
}

/// The frame-rate field: the sample with no decimal places, right-aligned to
/// width four.
pub open spec fn fps_chars(fps: int) -> Seq<char> {
    pad4(dec_digits(fps))
}

/// A leading minus sign for negative values.
pub open spec fn sign_chars(c: int) -> Seq<char> {
    if c < 0 {
        seq!['-']
    } else {
        Seq::empty()
    }
}

/// An input-axis field: the fixed-point value (hundredths) with two decimal
/// places, right-aligned to width four.
pub open spec fn axis_chars(c: int) -> Seq<char> {
    let a = if c < 0 {
        -c
    } else {
        c
    };
    pad4(
        sign_chars(c) + dec_digits(a / 100) + seq!['.'] + seq![
            digit_char((a % 100) / 10),
            digit_char((a % 100) % 10),
        ],
    )
}

/// The label of a jump state, as shown on the HUD.
pub open spec fn jump_label_chars(jump: JumpState) -> Seq<char> {
    match jump {
        JumpState::Idle => "Idle"@,
        JumpState::Fired => "Fired"@,
        JumpState::Held => "Held"@,
        JumpState::Released => "Released"@,
    }
}

/// The full three-line HUD text for a frame-rate sample, an input vector
/// (fixed-point hundredths per axis) and a jump state.
pub open spec fn hud_chars(fps: int, move_x: int, move_y: int, jump: JumpState) -> Seq<char> {
    "FPS: "@ + fps_chars(fps) + "\nMove: ["@ + axis_chars(move_x) + ", "@ + axis_chars(move_y)
        + "] (WASD/Arrows/Stick)\nJump: "@ + jump_label_chars(jump) + " (Space/W/Up/South)"@
}

/// The decimal rendering of a number is never empty.
pub proof fn lemma_dec_digits_nonempty(n: int)
    ensures
        dec_digits(n).len() >= 1,
    decreases n,
{
    if n >= 10 {
        lemma_dec_digits_nonempty(n / 10);
    }
}

/// The digit character for a value below ten.
fn digit_str(d: u32) -> (r: &'static str)
    requires
        d < 10,
    ensures
        r@ == seq![digit_char(d as int)],
{
    if d == 0 {
        proof {
            reveal_strlit("0");
            assert("0"@ =~= seq![digit_char(0)]);
        }
        "0"
    } else if d == 1 {
        proof {
            reveal_strlit("1");
            assert("1"@ =~= seq![digit_char(1)]);
        }
        "1"
    } else if d == 2 {
        proof {
            reveal_strlit("2");
            assert("2"@ =~= seq![digit_char(2)]);
        }
        "2"
    } else if d == 3 {
        proof {
            reveal_strlit("3");
            assert("3"@ =~= seq![digit_char(3)]);
        }
        "3"
    } else if d == 4 {
        proof {
            reveal_strlit("4");
            assert("4"@ =~= seq![digit_char(4)]);
        }
        "4"
    } else if d == 5 {
        proof {
            reveal_strlit("5");
            assert("5"@ =~= seq![digit_char(5)]);
        }
        "5"
    } else if d == 6 {
        proof {
            reveal_strlit("6");
            assert("6"@ =~= seq![digit_char(6)]);
        }
        "6"
    } else if d == 7 {
        proof {
            reveal_strlit("7");
            assert("7"@ =~= seq![digit_char(7)]);
        }
        "7"
    } else if d == 8 {
        proof {
            reveal_strlit("8");
            assert("8"@ =~= seq![digit_char(8)]);
        }
        "8"
    } else {
        proof {
            reveal_strlit("9");
            assert("9"@ =~= seq![digit_char(9)]);
        }
        "9"
    }
}

/// Appends the decimal digits of a number.
fn push_decimal(s: &mut String, n: u32)
    ensures
        final(s)@ == old(s)@ + dec_digits(n as int),
    decreases n,
{
    if n < 10 {
        let d = digit_str(n);
        s.append(d);
        proof {
            assert(s@ =~= old(s)@ + dec_digits(n as int));
        }
    } else {
        push_decimal(s, n / 10);
        let d = digit_str(n % 10);
        s.append(d);
        proof {
            assert(s@ =~= old(s)@ + dec_digits(n as int));
        }
    }
}

/// Appends the frame-rate field: digits right-aligned to width four.
fn push_fps(s: &mut String, fps: u32)
    ensures
        final(s)@ == old(s)@ + fps_chars(fps as int),
{
    let mut digits = String::new();
    push_decimal(&mut digits, fps);
    let len = digits.as_str().unicode_len();
    proof {
        reveal_with_fuel(space_chars, 5);
        reveal_strlit(" ");
        reveal_strlit("  ");
        reveal_strlit("   ");
        assert(" "@ =~= space_chars(1));
        assert("  "@ =~= space_chars(2));
        assert("   "@ =~= space_chars(3));
        lemma_dec_digits_nonempty(fps as int);
    }
    if len == 1 {
        s.append("   ");
    } else if len == 2 {
        s.append("  ");
    } else if len == 3 {
        s.append(" ");
    }
    s.append(digits.as_str());
    proof {
        assert(s@ =~= old(s)@ + fps_chars(fps as int));
    }
}

/// Appends an input-axis field: the fixed-point value with two decimal
/// places.
fn push_axis(s: &mut String, c: i32)
    requires
        -100 <= c <= 100,
    ensures
        final(s)@ == old(s)@ + axis_chars(c as int),
{
    let a: u32;
    if c < 0 {
        s.append("-");
        proof {
            reveal_strlit("-");
            assert("-"@ =~= sign_chars(c as int));
        }
        a = (0 - c) as u32;
    } else {
        a = c as u32;
    }
    push_decimal(s, a / 100);
    s.append(".");
    proof {
        reveal_strlit(".");
        assert("."@ =~= seq!['.']);
    }
    let rem = a % 100;
    let d1 = digit_str(rem / 10);
    s.append(d1);
    let d2 = digit_str(rem % 10);
    s.append(d2);
    proof {
        lemma_dec_digits_nonempty(a as int / 100);
        assert(s@ =~= old(s)@ + axis_chars(c as int));
    }
}

/// The label of a jump state.
fn jump_label(jump: JumpState) -> (r: &'static str)
    ensures
        r@ == jump_label_chars(jump),
{
    match jump {
        JumpState::Idle => "Idle",
        JumpState::Fired => "Fired",
        JumpState::Held => "Held",
        JumpState::Released => "Released",
    }
}

/// Composes the HUD text: three fixed lines combining the frame-rate
/// sample, the input vector and the jump state's label. A pure function of
/// its inputs with no side effects.
pub fn format_hud_text(fps: u32, movement: Vec2i, jump_state: JumpState) -> (r: String)
    requires
        -100 <= movement.x <= 100,
        -100 <= movement.y <= 100,
    ensures
        r@ == hud_chars(fps as int, movement.x as int, movement.y as int, jump_state),
{
    let mut s = String::new();
    s.append("FPS: ");
    push_fps(&mut s, fps);
    s.append("\nMove: [");
    push_axis(&mut s, movement.x);
    s.append(", ");
    push_axis(&mut s, movement.y);
    s.append("] (WASD/Arrows/Stick)\nJump: ");
    let label = jump_label(jump_state);
    s.append(label);
    s.append(" (Space/W/Up/South)");
    proof {
        assert(s@ =~= hud_chars(
            fps as int,
            movement.x as int,
            movement.y as int,
            jump_state,
        ));
    }
    s
}

} // verus!
