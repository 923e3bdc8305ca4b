//! Text building blocks for the terminal protocol: runs of blanks, decimal
//! numbers, and the cursor-up control sequence that the redraw cycle emits
//! before and after blanking the previously printed rows.
use vstd::prelude::*;

verus! {

/// Relies on `String::push` from std: appends the given character to the end
/// of the string.
pub assume_specification[ String::push ](s: &mut String, ch: char)
    ensures
        final(s)@ == old(s)@ + seq![ch],
;

/// A run of `n` space characters.
pub open spec fn spaces_of(n: nat) -> Seq<char> {
    Seq::new(n, |i: int| ' ')
}

/// Builds a string of `n` spaces, used to blank a previously printed row.
pub fn spaces_string(n: usize) -> (s: String)
    ensures
        s@ == spaces_of(n as nat),
{
    let mut s = String::new();
    proof {
        assert(s@ =~= spaces_of(0));
    }
    let mut i: usize = 0;
    while i < n
        invariant
            i <= n,
            s@ == spaces_of(i as nat),
        decreases n - i,
    {
        s.push(' ');
        i = i + 1;
        proof {
            assert(s@ =~= spaces_of(i as nat));
        }
    }
    s
}

/// The character for one decimal digit.
pub open spec fn decimal_digit(d: nat) -> char {
    if d == 0 {
        '0'
    } else if d == 1 {
        '1'
    } else if d == 2 {
        '2'
    } else if d == 3 {
        '3'
    } else if d == 4 {
        '4'
    } else if d == 5 {
        '5'
    } else if d == 6 {
        '6'
    } else if d == 7 {
        '7'
    } else if d == 8 {
        '8'
    } else {
        '9'
    }
}

/// The decimal digits of `n`, most significant first, with no leading zeros
/// (`0` itself is the single digit `0`).
pub open spec fn decimal_of(n: nat) -> Seq<char>
    decreases n,
{
    if n < 10 {
        seq![decimal_digit(n)]
    } else {
        decimal_of(n / 10).push(decimal_digit(n % 10))
    }
}

fn digit_char(d: usize) -> (c: char)
    requires
        d < 10,
    ensures
        c == decimal_digit(d as nat),
{
    if d == 0 {
        '0'
    } else if d == 1 {
        '1'
    } else if d == 2 {
        '2'
    } else if d == 3 {
        '3'
    } else if d == 4 {
        '4'
    } else if d == 5 {
        '5'
    } else if d == 6 {
        '6'
    } else if d == 7 {
        '7'
    } else if d == 8 {
        '8'
    } else {
        '9'
    }
}

/// Renders `n` in decimal.
pub fn usize_decimal(n: usize) -> (s: String)
    ensures
        s@ == decimal_of(n as nat),
{
    let mut rev: Vec<char> = Vec::new();
    let mut m: usize = n;
    proof {
        assert(decimal_of(n as nat) =~= decimal_of(n as nat) + rev@.reverse());
    }
    while m >= 10
        invariant
            decimal_of(n as nat) == decimal_of(m as nat) + rev@.reverse(),
        decreases m,
    {
        let ghost m0 = m as nat;
        let ghost rev0 = rev@;
        let d = m % 10;
        rev.push(digit_char(d));
        m = m / 10;
        proof {
            assert(rev@.reverse() =~= seq![decimal_digit(m0 % 10)] + rev0.reverse());
            assert(decimal_of(m0) == decimal_of(m0 / 10).push(decimal_digit(m0 % 10)));
            assert(decimal_of((m0 / 10) as nat) + rev@.reverse() =~= decimal_of(m0) + rev0.reverse());
        }
    }
    let ghost rev1 = rev@;
    rev.push(digit_char(m));
    proof {
        assert(rev@.reverse() =~= seq![decimal_digit(m as nat)] + rev1.reverse());
        assert(decimal_of(m as nat) == seq![decimal_digit(m as nat)]);
        assert(rev@.reverse() =~= decimal_of(n as nat));
    }
    let mut s = String::new();
    let mut i: usize = rev.len();
    proof {
        assert(s@ =~= rev@.subrange(i as int, rev@.len() as int).reverse());
    }
    while i > 0
        invariant
            i <= rev@.len(),
            rev@.reverse() == decimal_of(n as nat),
            s@ == rev@.subrange(i as int, rev@.len() as int).reverse(),
        decreases i,
    {
        i = i - 1;
        s.push(rev[i]);
        proof {
            assert(s@ =~= rev@.subrange(i as int, rev@.len() as int).reverse());
        }
    }
    proof {
        assert(rev@.subrange(0, rev@.len() as int) =~= rev@);
        assert(s@ == rev@.reverse());
    }
    s
}

/// The ANSI control sequence that moves the cursor up by `n` rows: the
/// escape introducer, the row count in decimal, and the final `A` — nothing
/// else, so emitting it moves the cursor and changes no row.
pub open spec fn cursor_up_text(n: nat) -> Seq<char> {
    seq!['\u{1b}', '['] + decimal_of(n) + seq!['A']
}

/// Builds the cursor-up control sequence for `n` rows.
pub fn cursor_up(n: usize) -> (t: String)
    ensures
        t@ == cursor_up_text(n as nat),
{
    let mut t = String::from_str("\u{1b}[");
    proof {
        reveal_strlit("\u{1b}[");
        assert(t@ =~= seq!['\u{1b}', '[']);
    }
    let d = usize_decimal(n);
    t.append(d.as_str());
    t.push('A');
    proof {
        assert(t@ =~= cursor_up_text(n as nat));
    }
    t
}

} // verus!
