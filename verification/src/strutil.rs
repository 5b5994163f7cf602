//! Small string helpers: equality against a literal, joining words with
//! single spaces, and parsing a signed decimal integer the way `exit`
//! needs it.

use vstd::prelude::*;
use vstd::string::StringExecFns;

verus! {

/// The view of an optional string.
pub open spec fn opt_str_view(o: Option<String>) -> Option<Seq<char>> {
    match o {
        Some(s) => Some(s@),
        None => None,
    }
}

/// Whether `t` holds exactly the characters of `lit`.
pub fn str_eq(t: &String, lit: &str) -> (r: bool)
    ensures
        r == (t@ == lit@),
{
    let s = String::from_str(lit);
    *t == s
}

/// The words of `args` joined with a single space between neighbours.
pub open spec fn join_spaced(args: Seq<Seq<char>>) -> Seq<char>
    decreases args.len(),
{
    if args.len() == 0 {
        Seq::empty()
    } else if args.len() == 1 {
        args[0]
    } else {
        join_spaced(args.drop_last()) + " "@ + args.last()
    }
}

/// Join the argument words with single spaces, as `echo` prints them.
pub fn join_args(args: &Vec<String>) -> (r: String)
    ensures
        r@ == join_spaced(args.deep_view()),
{
    let ghost all = args.deep_view();
    let mut r = String::new();
    let mut i: usize = 0;
    while i < args.len()
        invariant
            i <= args.len(),
            all == args.deep_view(),
            r@ == join_spaced(all.subrange(0, i as int)),
        decreases args.len() - i,
    {
        if i > 0 {
            r.append(" ");
        }
        r.append(args[i].as_str());
        proof {
            let pre = all.subrange(0, i as int);
            let post = all.subrange(0, i + 1);
            assert(post.drop_last() =~= pre);
            assert(post.last() == all[i as int]);
            if i == 0 {
                assert(Seq::<char>::empty() + all[0] =~= all[0]);
            }
        }
        i += 1;
    }
    proof {
        assert(all.subrange(0, args@.len() as int) =~= all);
    }
    r
}

/// An ASCII decimal digit.
pub open spec fn is_digit(c: char) -> bool {
    48 <= c as int <= 57
}

/// The numeric value of one digit character.
pub open spec fn digit_val(c: char) -> int {
    c as int - 48
}

/// Every character of `s` is a decimal digit.
pub open spec fn all_digits(s: Seq<char>) -> bool {
    forall|j: int| 0 <= j < s.len() ==> is_digit(#[trigger] s[j])
}

/// The value of a digit string read in base ten.
pub open spec fn digits_val(s: Seq<char>) -> int
    decreases s.len(),
{
    if s.len() == 0 {
        0
    } else {
        digits_val(s.drop_last()) * 10 + digit_val(s.last())
    }
}

/// What `i32` parsing accepts: an optional single `+` or `-` sign followed
/// by one or more decimal digits, the signed value within the `i32` range.
pub open spec fn parse_i32_spec(s: Seq<char>) -> Option<i32> {
    let ds = if s.len() > 0 && (s[0] == '-' || s[0] == '+') {
        s.subrange(1, s.len() as int)
    } else {
        s
    };
    let neg = s.len() > 0 && s[0] == '-';
    if ds.len() > 0 && all_digits(ds) {
        let v = if neg {
            -digits_val(ds)
        } else {
            digits_val(ds)
        };
        if -2147483648 <= v <= 2147483647 {
            Some(v as i32)
        } else {
            None
        }
    } else {
        None
    }
}

proof fn lemma_digits_val_nonneg(s: Seq<char>)
    requires
        all_digits(s),
    ensures
        digits_val(s) >= 0,
    decreases s.len(),
{
    if s.len() > 0 {
        assert(all_digits(s.drop_last())) by {
            assert(forall|j: int|
                0 <= j < s.len() - 1 ==> #[trigger] s.drop_last()[j] == s[j]);
        }
        lemma_digits_val_nonneg(s.drop_last());
    }
}

proof fn lemma_digits_val_prefix_le(s: Seq<char>, i: int)
    requires
        all_digits(s),
        0 <= i <= s.len(),
    ensures
        digits_val(s.subrange(0, i)) <= digits_val(s),
    decreases s.len() - i,
{
    if i == s.len() {
        assert(s.subrange(0, i) =~= s);
    } else {
        let pre = s.subrange(0, i);
        let post = s.subrange(0, i + 1);
        assert(post.drop_last() =~= pre);
        assert(post.last() == s[i]);
        assert(all_digits(pre)) by {
            assert(forall|j: int| 0 <= j < i ==> #[trigger] pre[j] == s[j]);
        }
        lemma_digits_val_nonneg(pre);
        lemma_digits_val_prefix_le(s, i + 1);
    }
}

/// Parse a signed decimal `i32`, returning `None` on any malformed input
/// or on a value outside the `i32` range.
#[verifier::loop_isolation(false)]
pub fn parse_i32(s: &str) -> (r: Option<i32>)
    ensures
        r == parse_i32_spec(s@),
{
    let n = s.unicode_len();
    if n == 0 {
        return None;
    }
    let c0 = s.get_char(0);
    let neg = c0 == '-';
    let start: usize = if c0 == '-' || c0 == '+' {
        1
    } else {
        0
    };
    let ghost ds = if start == 1 {
        s@.subrange(1, s@.len() as int)
    } else {
        s@
    };
    if start >= n {
        return None;
    }
    let mut i: usize = start;
    let mut acc: u64 = 0;
    while i < n
        invariant
            start <= i <= n,
            acc == digits_val(ds.subrange(0, i - start)),
            all_digits(ds.subrange(0, i - start)),
            acc <= 2147483648,
        decreases n - i,
    {
        let ghost k = i - start;
        let c = s.get_char(i);
        let u = c as u32;
        if u < 48 || u > 57 {
            proof {
                assert(ds[k] == s@[i as int]);
                assert(!is_digit(ds[k]));
            }
            return None;
        }
        let d = (u - 48) as u64;
        acc = acc * 10 + d;
        proof {
            let post = ds.subrange(0, k + 1);
            assert(post.drop_last() =~= ds.subrange(0, k));
            assert(post.last() == ds[k]);
            assert(ds[k] == s@[i as int]);
            assert(acc == digits_val(post));
            assert(all_digits(post));
        }
        if acc > 2147483648 {
            proof {
                if all_digits(ds) {
                    lemma_digits_val_prefix_le(ds, k + 1);
                }
            }
            return None;
        }
        i += 1;
    }
    proof {
        assert(ds.subrange(0, n - start) =~= ds);
    }
    if neg {
        if acc == 2147483648 {
            Some(i32::MIN)
        } else {
            Some(-(acc as i32))
        }
    } else {
        if acc > 2147483647 {
            None
        } else {
            Some(acc as i32)
        }
    }
}

} // verus!
