//! The frame renderer: a pure function from an indicator's state and the
//! target width to the display line, with an exact character-level
//! specification.

use vstd::prelude::*;
use vstd::string::StringExecFns;

use crate::state::{ProgressState, UNKNOWN_LEN};

verus! {

/// The decimal digit characters of `n`, most significant first.
pub open spec fn dec_spec(n: nat) -> Seq<char>
    decreases n,
{
    if n < 10 {
        seq![digit_char_spec(n)]
    } else {
        dec_spec(n / 10).push(digit_char_spec(n % 10))
    }
}

/// The character of one decimal digit.
pub open spec fn digit_char_spec(d: nat) -> char {
    if d == 0 {
        '0'
    } else if d == 1 {
        '1'
    } else if d == 2 {
        '2'
    } else if d == 3 {
        '3'
    } else if d == 4 {
        '4'
    } else if d == 5 {
        '5'
    } else if d == 6 {
        '6'
    } else if d == 7 {
        '7'
    } else if d == 8 {
        '8'
    } else {
        '9'
    }
}

/// Maps one decimal digit to its character.
fn digit_char(d: u64) -> (c: char)
    requires
        d < 10,
    ensures
        c == digit_char_spec(d as nat),
{
    if d == 0 {
        '0'
    } else if d == 1 {
        '1'
    } else if d == 2 {
        '2'
    } else if d == 3 {
        '3'
    } else if d == 4 {
        '4'
    } else if d == 5 {
        '5'
    } else if d == 6 {
        '6'
    } else if d == 7 {
        '7'
    } else if d == 8 {
        '8'
    } else {
        '9'
    }
}

/// Relies on String::push: appends exactly one character.
#[verifier::external_body]
fn push_char(s: &mut String, c: char)
    ensures
        final(s)@ == old(s)@.push(c),
{
    s.push(c);
}

/// Writes `n` in decimal.
pub fn u64_to_string(n: u64) -> (s: String)
    ensures
        s@ == dec_spec(n as nat),
{
    let mut rev: Vec<char> = Vec::new();
    rev.push(digit_char(n % 10));
    let mut m: u64 = n / 10;
    proof {
        assert(rev@.reverse() =~= seq![digit_char_spec((n % 10) as nat)]);
        if n >= 10 {
            assert(dec_spec(n as nat) == dec_spec((n as nat) / 10).push(
                digit_char_spec((n as nat) % 10),
            ));
            assert(dec_spec((n as nat) / 10) + rev@.reverse() =~= dec_spec(n as nat));
        }
    }
    while m > 0
        invariant
            m > 0 ==> dec_spec(n as nat) =~= dec_spec(m as nat) + rev@.reverse(),
            m == 0 ==> dec_spec(n as nat) =~= rev@.reverse(),
            rev@.len() >= 1,
        decreases m,
    {
        let ghost prev = rev@;
        let ghost mprev = m as nat;
        rev.push(digit_char(m % 10));
        proof {
            assert(rev@.reverse() =~= seq![digit_char_spec(mprev % 10)] + prev.reverse());
        }
        m = m / 10;
        proof {
            if mprev >= 10 {
                assert(dec_spec(mprev) == dec_spec(mprev / 10).push(digit_char_spec(mprev % 10)));
                assert(dec_spec(mprev / 10) + rev@.reverse() =~= dec_spec(mprev) + prev.reverse());
            } else {
                assert(dec_spec(mprev) =~= seq![digit_char_spec(mprev)]);
                assert(rev@.reverse() =~= dec_spec(mprev) + prev.reverse());
            }
        }
    }
    let mut s = String::new();
    let n_digits = rev.len();
    let mut i: usize = n_digits;
    while i > 0
        invariant
            n_digits == rev@.len(),
            i <= n_digits,
            s@ =~= rev@.skip(i as int).reverse(),
        decreases i,
    {
        i = i - 1;
        push_char(&mut s, rev[i]);
        proof {
            assert(s@ =~= rev@.skip(i as int).reverse());
        }
    }
    proof {
        assert(rev@.skip(0) =~= rev@);
        assert(s@ =~= rev@.reverse());
    }
    s
}

/// The one display line of a bar: its prefix, then the position over the
/// length (or the spinner frame when the length is unknown), then the
/// message, separated by single spaces.
pub open spec fn render_line_spec(st: &ProgressState) -> Seq<char> {
    if st.len == UNKNOWN_LEN {
        st.prefix@ + " "@ + seq![st.style.spec_tick_char(st.tick)] + " "@ + st.message@
    } else {
        st.prefix@ + " "@ + dec_spec(st.pos as nat) + "/"@ + dec_spec(st.len as nat) + " "@
            + st.message@
    }
}

/// Renders the frame of one bar at the given width. The width does not
/// change what this renderer shows.
pub fn render_line(st: &ProgressState, width: usize) -> (s: String)
    requires
        st.wf(),
    ensures
        s@ == render_line_spec(st),
{
    let mut s = String::new();
    s.append(st.prefix.as_str());
    s.append(" ");
    if st.len == UNKNOWN_LEN {
        let c = st.style.tick_char(st.tick);
        push_char(&mut s, c);
        proof {
            assert(s@ =~= st.prefix@ + " "@ + seq![st.style.spec_tick_char(st.tick)]);
        }
    } else {
        let pos_s = u64_to_string(st.pos);
        s.append(pos_s.as_str());
        s.append("/");
        let len_s = u64_to_string(st.len);
        s.append(len_s.as_str());
    }
    s.append(" ");
    s.append(st.message.as_str());
    proof {
        assert(s@ =~= render_line_spec(st));
    }
    s
}

/// The rendered lines of one bar: a single line.
pub fn render_lines(st: &ProgressState, width: usize) -> (r: Vec<String>)
    requires
        st.wf(),
    ensures
        r@.len() == 1,
        r@[0]@ == render_line_spec(st),
{
    let line = render_line(st, width);
    let mut r: Vec<String> = Vec::new();
    r.push(line);
    r
}

} // verus!
