//! Derivation of an extracted crop's file name from the source image's
//! name and the region's sequence number: `<stem>-<n>.png`.

use vstd::prelude::*;
use vstd::string::StrSliceExecFns;
use vstd::string::StringExecFns;

verus! {

/// The index of the last `'.'` at position 1 or later in `name`, or `-1`
/// when there is none. A dot at position 0 marks a hidden file, not an
/// extension, and does not count.
pub open spec fn last_dot(name: Seq<char>) -> int
    decreases name.len(),
{
    if name.len() <= 1 {
        -1
    } else if name.last() == '.' {
        name.len() - 1
    } else {
        last_dot(name.drop_last())
    }
}

/// The file stem of `name`: everything before the last `'.'`, or the whole
/// name when it has no extension.
pub open spec fn spec_stem(name: Seq<char>) -> Seq<char> {
    if last_dot(name) >= 1 {
        name.take(last_dot(name))
    } else {
        name
    }
}

proof fn lemma_last_dot_none(name: Seq<char>)
    requires
        forall|j: int| 1 <= j < name.len() ==> name[j] != '.',
    ensures
        last_dot(name) == -1,
    decreases name.len(),
{
    if name.len() <= 1 {
    } else {
        assert(name.last() != '.');
        assert(forall|j: int| 1 <= j < name.drop_last().len() ==> name.drop_last()[j] != '.');
        lemma_last_dot_none(name.drop_last());
    }
}

proof fn lemma_last_dot_found(name: Seq<char>, k: int)
    requires
        1 <= k < name.len(),
        name[k] == '.',
        forall|j: int| k < j < name.len() ==> name[j] != '.',
    ensures
        last_dot(name) == k,
    decreases name.len(),
{
    if k == name.len() - 1 {
    } else {
        assert(name.last() != '.');
        assert(name.drop_last()[k] == '.');
        assert(forall|j: int| k < j < name.drop_last().len() ==> name.drop_last()[j] != '.');
        lemma_last_dot_found(name.drop_last(), k);
    }
}

/// The file stem of `name`, with the semantics of a path's stem on a
/// plain file name: the part before the last dot, the whole name when
/// there is no dot, and an initial dot never counts as an extension.
pub fn file_stem<'a>(name: &'a str) -> (r: &'a str)
    ensures
        r@ == spec_stem(name@),
{
    let n = name.unicode_len();
    let mut i = n;
    while i > 1
        invariant
            i <= n,
            n == name@.len(),
            forall|j: int| i <= j < n ==> name@[j] != '.',
        decreases i,
    {
        i = i - 1;
        if name.get_char(i) == '.' {
            proof {
                lemma_last_dot_found(name@, i as int);
            }
            return name.substring_char(0, i);
        }
    }
    proof {
        lemma_last_dot_none(name@);
    }
    name
}

/// The decimal digit character for `d` in `0..10`.
pub open spec fn digit_char(d: int) -> char {
    if d == 0 {
        '0'
    } else if d == 1 {
        '1'
    } else if d == 2 {
        '2'
    } else if d == 3 {
        '3'
    } else if d == 4 {
        '4'
    } else if d == 5 {
        '5'
    } else if d == 6 {
        '6'
    } else if d == 7 {
        '7'
    } else if d == 8 {
        '8'
    } else {
        '9'
    }
}

/// The decimal digits of `n`, most significant first, without leading
/// zeros (a single `'0'` for zero).
pub open spec fn dec_digits(n: nat) -> Seq<char>
    decreases n,
{
    if n < 10 {
        seq![digit_char(n as int)]
    } else {
        dec_digits(n / 10).push(digit_char((n % 10) as int))
    }
}

fn digit_str(d: u32) -> (r: &'static str)
    requires
        d < 10,
    ensures
        r@ =~= seq![digit_char(d as int)],
{
    proof {
        reveal_strlit("0");
        reveal_strlit("1");
        reveal_strlit("2");
        reveal_strlit("3");
        reveal_strlit("4");
        reveal_strlit("5");
        reveal_strlit("6");
        reveal_strlit("7");
        reveal_strlit("8");
        reveal_strlit("9");
    }
    if d == 0 {
        "0"
    } else if d == 1 {
        "1"
    } else if d == 2 {
        "2"
    } else if d == 3 {
        "3"
    } else if d == 4 {
        "4"
    } else if d == 5 {
        "5"
    } else if d == 6 {
        "6"
    } else if d == 7 {
        "7"
    } else if d == 8 {
        "8"
    } else {
        "9"
    }
}

/// Render `n` in decimal.
pub fn dec_str(n: u32) -> (r: String)
    ensures
        r@ == dec_digits(n as nat),
    decreases n,
{
    if n < 10 {
        let mut s = String::new();
        s.append(digit_str(n));
        proof {
            assert(s@ =~= dec_digits(n as nat));
        }
        s
    } else {
        let mut s = dec_str(n / 10);
        s.append(digit_str(n % 10));
        proof {
            assert(s@ =~= dec_digits(n as nat));
        }
        s
    }
}

/// The name an extracted crop is destined for: the source name's stem,
/// a dash, the zero-based sequence number, and the `.png` extension.
pub open spec fn spec_crop_name(name: Seq<char>, counter: nat) -> Seq<char> {
    spec_stem(name) + seq!['-'] + dec_digits(counter) + seq!['.', 'p', 'n', 'g']
}

/// Build `<stem>-<counter>.png` from a source file name.
pub fn crop_name(name: &str, counter: u32) -> (r: String)
    ensures
        r@ == spec_crop_name(name@, counter as nat),
{
    let stem = file_stem(name);
    let mut s = stem.to_owned();
    s.append("-");
    let digits = dec_str(counter);
    s.append(digits.as_str());
    s.append(".png");
    proof {
        reveal_strlit("-");
        reveal_strlit(".png");
        assert(s@ =~= spec_crop_name(name@, counter as nat));
    }
    s
}

} // verus!
