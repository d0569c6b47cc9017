//! The output formatter: the active counts, each right-justified in an
//! 8-character field in the fixed order lines, words, bytes, characters,
//! then one space and the filename, if any.

use vstd::prelude::*;
use crate::config::{Config, ConfigModel};
use crate::count::Counts;
use crate::text::{chars_of, string_from_chars};

verus! {

/// The decimal digit character of `d`.
pub open spec fn digit_char(d: int) -> char {
    if d == 0 {
        '0'
    } else if d == 1 {
        '1'
    } else if d == 2 {
        '2'
    } else if d == 3 {
        '3'
    } else if d == 4 {
        '4'
    } else if d == 5 {
        '5'
    } else if d == 6 {
        '6'
    } else if d == 7 {
        '7'
    } else if d == 8 {
        '8'
    } else {
        '9'
    }
}

/// The decimal numeral of `n`, most significant digit first; "0" for 0.
pub open spec fn dec_digits(n: int) -> Seq<char>
    recommends
        n >= 0,
    decreases n,
{
    if n < 10 {
        seq![digit_char(n)]
    } else {
        dec_digits(n / 10).push(digit_char(n % 10))
    }
}

/// `s` right-justified to a minimum width `w`, padded with spaces;
/// longer sequences are kept whole.
pub open spec fn right_justified(s: Seq<char>, w: int) -> Seq<char> {
    if s.len() >= w {
        s
    } else {
        Seq::new((w - s.len()) as nat, |k: int| ' ') + s
    }
}

/// One output field: the count right-justified in width 8.
pub open spec fn count_field(n: int) -> Seq<char> {
    right_justified(dec_digits(n), 8)
}

/// The one line the program prints, without the trailing line feed: the
/// active counts in the fixed order lines, words, bytes, characters, then
/// one space, then the filename (nothing for standard input).
pub open spec fn output_line(cfg: ConfigModel, c: Counts) -> Seq<char> {
    (if cfg.show_lines {
        count_field(c.lines as int)
    } else {
        Seq::<char>::empty()
    }) + (if cfg.show_words {
        count_field(c.words as int)
    } else {
        Seq::<char>::empty()
    }) + (if cfg.show_bytes {
        count_field(c.bytes as int)
    } else {
        Seq::<char>::empty()
    }) + (if cfg.show_chars {
        count_field(c.chars as int)
    } else {
        Seq::<char>::empty()
    }) + seq![' '] + (match cfg.filename {
        Option::Some(f) => f,
        Option::None => Seq::<char>::empty(),
    })
}

/// The decimal digit character of `d`.
fn digit_char_exec(d: usize) -> (r: char)
    requires
        d < 10,
    ensures
        r == digit_char(d as int),
{
    if d == 0 {
        '0'
    } else if d == 1 {
        '1'
    } else if d == 2 {
        '2'
    } else if d == 3 {
        '3'
    } else if d == 4 {
        '4'
    } else if d == 5 {
        '5'
    } else if d == 6 {
        '6'
    } else if d == 7 {
        '7'
    } else if d == 8 {
        '8'
    } else {
        '9'
    }
}

/// Appends the decimal numeral of `n`.
fn push_digits(out: &mut Vec<char>, n: usize)
    ensures
        final(out)@ == old(out)@ + dec_digits(n as int),
    decreases n,
{
    if n < 10 {
        out.push(digit_char_exec(n));
        proof {
            assert(old(out)@ + dec_digits(n as int) =~= old(out)@.push(digit_char(n as int)));
        }
    } else {
        push_digits(out, n / 10);
        out.push(digit_char_exec(n % 10));
        proof {
            assert(old(out)@ + dec_digits(n as int) =~= (old(out)@ + dec_digits(
                n as int / 10,
            )).push(digit_char(n as int % 10)));
        }
    }
}

/// Appends one 8-wide right-justified count field.
#[verifier::loop_isolation(false)]
fn push_field(out: &mut Vec<char>, n: usize)
    ensures
        final(out)@ == old(out)@ + count_field(n as int),
{
    let mut digits: Vec<char> = Vec::new();
    push_digits(&mut digits, n);
    let d = digits.len();
    let mut k: usize = d;
    proof {
        assert(out@ =~= old(out)@ + Seq::new(0nat, |x: int| ' '));
    }
    while k < 8
        invariant
            d <= k,
            k <= 8 || k == d,
            out@ == old(out)@ + Seq::new((k - d) as nat, |x: int| ' '),
        decreases 8 - k,
    {
        out.push(' ');
        k = k + 1;
        proof {
            assert(old(out)@ + Seq::new((k - d) as nat, |x: int| ' ') =~= (old(out)@ + Seq::new(
                (k - 1 - d) as nat,
                |x: int| ' ',
            )).push(' '));
        }
    }
    out.append(&mut digits);
    proof {
        assert(out@ =~= old(out)@ + count_field(n as int));
    }
}

/// The printed line for a configuration and its counts, exactly as
/// `output_line` describes.
pub fn format_output(cfg: &Config, c: &Counts) -> (r: String)
    ensures
        r@ == output_line(cfg@, *c),
{
    let mut out: Vec<char> = Vec::new();
    if cfg.show_lines {
        push_field(&mut out, c.lines);
    }
    if cfg.show_words {
        push_field(&mut out, c.words);
    }
    if cfg.show_bytes {
        push_field(&mut out, c.bytes);
    }
    if cfg.show_chars {
        push_field(&mut out, c.chars);
    }
    out.push(' ');
    match &cfg.filename {
        Option::Some(f) => {
            let mut cs = chars_of(f.as_str());
            out.append(&mut cs);
        },
        Option::None => {},
    }
    proof {
        assert(out@ =~= output_line(cfg@, *c));
    }
    string_from_chars(out)
}

} // verus!
