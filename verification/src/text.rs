use vstd::prelude::*;
use vstd::string::*;

verus! {

/// The pieces of `s` split on single spaces: separators are dropped,
/// empty pieces are kept, and the piece count is always one more than
/// the space count.
pub open spec fn spec_tokens(s: Seq<char>) -> Seq<Seq<char>>
    decreases s.len(),
{
    if s.len() == 0 {
        seq![Seq::<char>::empty()]
    } else {
        let front = spec_tokens(s.drop_last());
        if s.last() == ' ' {
            front + seq![Seq::<char>::empty()]
        } else {
            front.update(front.len() - 1, front.last() + seq![s.last()])
        }
    }
}

/// Splitting always yields at least one piece.
pub proof fn lemma_tokens_nonempty(s: Seq<char>)
    ensures
        spec_tokens(s).len() >= 1,
    decreases s.len(),
{
    if s.len() != 0 {
        lemma_tokens_nonempty(s.drop_last());
    }
}

/// Splits `s` on single spaces, as `spec_tokens` describes.
pub fn split_tokens(s: &str) -> (r: Vec<String>)
    ensures
        r.deep_view() == spec_tokens(s@),
{
    let n = s.unicode_len();
    let mut toks: Vec<String> = Vec::new();
    let mut start: usize = 0;
    let mut i: usize = 0;
    proof {
        assert(toks.deep_view().push(s@.subrange(0int, 0int)) =~~= spec_tokens(s@.take(0int)));
    }
    while i < n
        invariant
            n == s@.len(),
            0 <= start <= i <= n,
            toks.deep_view().push(s@.subrange(start as int, i as int)) == spec_tokens(
                s@.take(i as int),
            ),
        decreases n - i,
    {
        proof {
            lemma_tokens_nonempty(s@.take(i as int));
            assert(s@.take(i as int + 1).drop_last() =~= s@.take(i as int));
            assert(s@.take(i as int + 1).last() == s@[i as int]);
        }
        let c = s.get_char(i);
        if c == ' ' {
            let ghost gstart = start as int;
            let piece = String::from_str(s.substring_char(start, i));
            let ghost pre = toks.deep_view();
            toks.push(piece);
            start = i + 1;
            proof {
                assert(toks.deep_view() =~~= pre.push(s@.subrange(gstart, i as int)));
                assert(toks.deep_view().push(s@.subrange(start as int, i as int + 1))
                    =~~= spec_tokens(s@.take(i as int + 1)));
            }
        } else {
            proof {
                assert(s@.subrange(start as int, i as int + 1) =~= s@.subrange(
                    start as int,
                    i as int,
                ) + seq![s@[i as int]]);
                let front = spec_tokens(s@.take(i as int));
                assert(toks.deep_view().push(s@.subrange(start as int, i as int + 1)) =~~= front
                    .update(front.len() - 1, front.last() + seq![s@[i as int]]));
            }
        }
        i = i + 1;
    }
    let piece = String::from_str(s.substring_char(start, n));
    let ghost pre = toks.deep_view();
    toks.push(piece);
    proof {
        assert(s@.take(n as int) =~= s@);
        assert(toks.deep_view() =~~= pre.push(s@.subrange(start as int, n as int)));
        assert(toks.deep_view() =~~= spec_tokens(s@));
    }
    toks
}

/// The decimal digit characters.
pub open spec fn spec_digit(d: int) -> char {
    if d == 0 {
        '0'
    } else if d == 1 {
        '1'
    } else if d == 2 {
        '2'
    } else if d == 3 {
        '3'
    } else if d == 4 {
        '4'
    } else if d == 5 {
        '5'
    } else if d == 6 {
        '6'
    } else if d == 7 {
        '7'
    } else if d == 8 {
        '8'
    } else {
        '9'
    }
}

/// The decimal rendering of a nonnegative integer, no leading zeros.
pub open spec fn spec_decimal(n: int) -> Seq<char>
    recommends
        n >= 0,
    decreases n,
{
    if n < 10 {
        seq![spec_digit(n)]
    } else {
        spec_decimal(n / 10) + seq![spec_digit(n % 10)]
    }
}

/// The decimal rendering of a signed integer: a leading minus sign
/// when negative.
pub open spec fn spec_decimal_signed(n: int) -> Seq<char> {
    if n < 0 {
        seq!['-'] + spec_decimal(-n)
    } else {
        spec_decimal(n)
    }
}

fn digit_str(d: u64) -> (r: &'static str)
    requires
        d < 10,
    ensures
        r@ == seq![spec_digit(d as int)],
{
    let s = match d {
        0 => "0",
        1 => "1",
        2 => "2",
        3 => "3",
        4 => "4",
        5 => "5",
        6 => "6",
        7 => "7",
        8 => "8",
        _ => "9",
    };
    proof {
        reveal_strlit("0");
        reveal_strlit("1");
        reveal_strlit("2");
        reveal_strlit("3");
        reveal_strlit("4");
        reveal_strlit("5");
        reveal_strlit("6");
        reveal_strlit("7");
        reveal_strlit("8");
        reveal_strlit("9");
        assert(s@ =~= seq![spec_digit(d as int)]);
    }
    s
}

/// Renders `n` in decimal.
pub fn u64_to_string(n: u64) -> (r: String)
    ensures
        r@ == spec_decimal(n as int),
    decreases n,
{
    if n < 10 {
        String::from_str(digit_str(n))
    } else {
        let mut s = u64_to_string(n / 10);
        s.append(digit_str(n % 10));
        s
    }
}

/// Renders `n` in decimal.
pub fn usize_to_string(n: usize) -> (r: String)
    ensures
        r@ == spec_decimal(n as int),
{
    u64_to_string(n as u64)
}

/// Renders `n` in decimal, with a minus sign when negative.
pub fn i32_to_string(n: i32) -> (r: String)
    ensures
        r@ == spec_decimal_signed(n as int),
{
    if n < 0 {
        let m: i64 = n as i64;
        let u: u64 = (-m) as u64;
        let mut s = String::from_str("-");
        let rest = u64_to_string(u);
        s.append(rest.as_str());
        proof {
            reveal_strlit("-");
            assert(s@ =~= spec_decimal_signed(n as int));
        }
        s
    } else {
        u64_to_string(n as u64)
    }
}

} // verus!
