//! The feed entry as it goes to readers: author name, the timestamp
//! rendered as ISO-8601 (`YYYY-MM-DDTHH:MM:SSZ`), and the content.

use crate::get_all_post::{Post, PostedDatetime};
use crate::text::push_char;
use vstd::prelude::*;

verus! {

/// The character for one decimal digit.
pub open spec fn digit_char(d: nat) -> char {
    if d == 0 {
        '0'
    } else if d == 1 {
        '1'
    } else if d == 2 {
        '2'
    } else if d == 3 {
        '3'
    } else if d == 4 {
        '4'
    } else if d == 5 {
        '5'
    } else if d == 6 {
        '6'
    } else if d == 7 {
        '7'
    } else if d == 8 {
        '8'
    } else {
        '9'
    }
}

/// The decimal digits of `n`, most significant first, no leading zeroes.
pub open spec fn dec_digits(n: nat) -> Seq<char>
    decreases n,
{
    if n < 10 {
        seq![digit_char(n)]
    } else {
        dec_digits(n / 10).push(digit_char(n % 10))
    }
}

/// `s` left-padded with zeroes to at least `width` characters.
pub open spec fn zero_pad(s: Seq<char>, width: nat) -> Seq<char> {
    if s.len() >= width {
        s
    } else {
        Seq::new((width - s.len()) as nat, |i: int| '0') + s
    }
}

/// The ISO-8601 rendering `YYYY-MM-DDTHH:MM:SSZ` of a timestamp.
pub open spec fn format_datetime(t: PostedDatetime) -> Seq<char> {
    zero_pad(dec_digits(t.year as nat), 4) + seq!['-'] + zero_pad(dec_digits(t.month as nat), 2)
        + seq!['-'] + zero_pad(dec_digits(t.day as nat), 2) + seq!['T'] + zero_pad(
        dec_digits(t.hour as nat),
        2,
    ) + seq![':'] + zero_pad(dec_digits(t.minute as nat), 2) + seq![':'] + zero_pad(
        dec_digits(t.second as nat),
        2,
    ) + seq!['Z']
}

/// How many digits a number has.
proof fn lemma_dec_digits_len(n: nat)
    ensures
        dec_digits(n).len() >= 1,
        n < 10 ==> dec_digits(n).len() == 1,
        10 <= n < 100 ==> dec_digits(n).len() == 2,
        100 <= n < 1000 ==> dec_digits(n).len() == 3,
        n >= 10 ==> dec_digits(n).len() >= 2,
        n >= 100 ==> dec_digits(n).len() >= 3,
        n >= 1000 ==> dec_digits(n).len() >= 4,
    decreases n,
{
    if n >= 10 {
        lemma_dec_digits_len(n / 10);
    }
}

/// The character for one decimal digit.
fn digit_char_exec(d: u64) -> (c: char)
    requires
        d < 10,
    ensures
        c == digit_char(d as nat),
{
    if d == 0 {
        '0'
    } else if d == 1 {
        '1'
    } else if d == 2 {
        '2'
    } else if d == 3 {
        '3'
    } else if d == 4 {
        '4'
    } else if d == 5 {
        '5'
    } else if d == 6 {
        '6'
    } else if d == 7 {
        '7'
    } else if d == 8 {
        '8'
    } else {
        '9'
    }
}

/// Appends the decimal digits of `v`.
fn push_digits(out: &mut String, v: u64)
    ensures
        final(out)@ == old(out)@ + dec_digits(v as nat),
    decreases v,
{
    if v < 10 {
        push_char(out, digit_char_exec(v));
        proof {
            assert(old(out)@.push(digit_char(v as nat)) =~= old(out)@ + dec_digits(v as nat));
        }
    } else {
        push_digits(out, v / 10);
        push_char(out, digit_char_exec(v % 10));
        proof {
            assert((old(out)@ + dec_digits((v / 10) as nat)).push(digit_char((v % 10) as nat))
                =~= old(out)@ + dec_digits(v as nat));
        }
    }
}

/// Appends `v` zero-padded to at least two digits.
fn push_two_digits(out: &mut String, v: u64)
    ensures
        final(out)@ == old(out)@ + zero_pad(dec_digits(v as nat), 2),
{
    proof {
        lemma_dec_digits_len(v as nat);
    }
    if v < 10 {
        push_char(out, '0');
        push_digits(out, v);
        proof {
            assert((old(out)@.push('0')) + dec_digits(v as nat) =~= old(out)@ + zero_pad(
                dec_digits(v as nat),
                2,
            ));
        }
    } else {
        push_digits(out, v);
    }
}

/// Appends `v` zero-padded to at least four digits.
fn push_four_digits(out: &mut String, v: u64)
    ensures
        final(out)@ == old(out)@ + zero_pad(dec_digits(v as nat), 4),
{
    proof {
        lemma_dec_digits_len(v as nat);
    }
    if v < 10 {
        push_char(out, '0');
        push_char(out, '0');
        push_char(out, '0');
        push_digits(out, v);
        proof {
            assert(((old(out)@.push('0')).push('0')).push('0') + dec_digits(v as nat) =~= old(
                out,
            )@ + zero_pad(dec_digits(v as nat), 4));
        }
    } else if v < 100 {
        push_char(out, '0');
        push_char(out, '0');
        push_digits(out, v);
        proof {
            assert((old(out)@.push('0')).push('0') + dec_digits(v as nat) =~= old(out)@ + zero_pad(
                dec_digits(v as nat),
                4,
            ));
        }
    } else if v < 1000 {
        push_char(out, '0');
        push_digits(out, v);
        proof {
            assert(old(out)@.push('0') + dec_digits(v as nat) =~= old(out)@ + zero_pad(
                dec_digits(v as nat),
                4,
            ));
        }
    } else {
        push_digits(out, v);
    }
}

/// Renders a timestamp as `YYYY-MM-DDTHH:MM:SSZ`.
fn format_posted_datetime(t: &PostedDatetime) -> (r: String)
    ensures
        r@ == format_datetime(*t),
{
    let mut out = String::new();
    push_four_digits(&mut out, t.year as u64);
    push_char(&mut out, '-');
    push_two_digits(&mut out, t.month as u64);
    push_char(&mut out, '-');
    push_two_digits(&mut out, t.day as u64);
    push_char(&mut out, 'T');
    push_two_digits(&mut out, t.hour as u64);
    push_char(&mut out, ':');
    push_two_digits(&mut out, t.minute as u64);
    push_char(&mut out, ':');
    push_two_digits(&mut out, t.second as u64);
    push_char(&mut out, 'Z');
    proof {
        assert(out@ =~= format_datetime(*t));
    }
    out
}

/// A feed entry as it is serialized for readers.
#[derive(Debug, Clone)]
pub struct PostDto {
    pub posted_user_name: String,
    pub posted_datetime: String,
    pub content: String,
}

impl PartialEq for PostDto {
    fn eq(&self, other: &Self) -> (r: bool) {
        self.posted_user_name == other.posted_user_name && self.posted_datetime
            == other.posted_datetime && self.content == other.content
    }
}

impl vstd::std_specs::cmp::PartialEqSpecImpl for PostDto {
    open spec fn obeys_eq_spec() -> bool {
        true
    }

    open spec fn eq_spec(&self, other: &Self) -> bool {
        self.posted_user_name@ == other.posted_user_name@ && self.posted_datetime@
            == other.posted_datetime@ && self.content@ == other.content@
    }
}

impl PostDto {
    /// Renders a feed entry: the name and content unchanged, the timestamp
    /// in ISO-8601.
    pub fn from(post: Post) -> (r: Self)
        ensures
            r.posted_user_name@ == post@.posted_user_name,
            r.posted_datetime@ == format_datetime(post@.posted_datetime),
            r.content@ == post@.content,
    {
        let datetime = format_posted_datetime(&post.posted_datetime);
        PostDto {
            posted_user_name: post.posted_user_name.0,
            posted_datetime: datetime,
            content: post.content.0,
        }
    }
}

} // verus!
