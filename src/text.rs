use vstd::prelude::*;
use vstd::string::StringExecFns;

verus! {

/// `items` joined by `separator`, or `empty` when there are none.
pub open spec fn joined(items: Seq<Seq<char>>, separator: Seq<char>, empty: Seq<char>) -> Seq<char>
    decreases items.len(),
{
    if items.len() == 0 {
        empty
    } else if items.len() == 1 {
        items[0]
    } else {
        joined(items.drop_last(), separator, empty) + separator + items.last()
    }
}

/// The texts of `items`.
pub open spec fn views(items: Seq<String>) -> Seq<Seq<char>> {
    items.map_values(|s: String| s@)
}

/// Joins `items` with `separator` between each two, or returns `empty` when there are none.
pub fn join_fold(items: &Vec<String>, separator: &str, empty: &str) -> (r: String)
    ensures
        r@ == joined(views(items@), separator@, empty@),
{
    if items.len() == 0 {
        return String::from_str(empty);
    }
    let mut out = items[0].clone();
    let mut i: usize = 1;
    while i < items.len()
        invariant
            1 <= i <= items@.len(),
            out@ == joined(views(items@.take(i as int)), separator@, empty@),
        decreases items@.len() - i,
    {
        assert(views(items@.take(i + 1)).drop_last() == views(items@.take(i as int)));
        out.append(separator);
        out.append(items[i].as_str());
        i = i + 1;
    }
    assert(items@.take(i as int) == items@);
    out
}

/// The decimal digits of `n`, most significant first.
pub open spec fn decimal(n: nat) -> Seq<char>
    decreases n,
{
    if n < 10 {
        seq![digit_char(n)]
    } else {
        decimal(n / 10) + seq![digit_char(n % 10)]
    }
}

pub open spec fn digit_char(d: nat) -> char {
    (('0' as nat) + d) as char
}

fn digit(d: usize) -> (c: &'static str)
    requires
        d < 10,
    ensures
        c@ == seq![digit_char(d as nat)],
{
    if d == 0 {
        proof {
            reveal_strlit("0");
        }
        assert(seq![digit_char(0)] =~= seq!['0']);
        "0"
    } else if d == 1 {
        proof {
            reveal_strlit("1");
        }
        assert(seq![digit_char(1)] =~= seq!['1']);
        "1"
    } else if d == 2 {
        proof {
            reveal_strlit("2");
        }
        assert(seq![digit_char(2)] =~= seq!['2']);
        "2"
    } else if d == 3 {
        proof {
            reveal_strlit("3");
        }
        assert(seq![digit_char(3)] =~= seq!['3']);
        "3"
    } else if d == 4 {
        proof {
            reveal_strlit("4");
        }
        assert(seq![digit_char(4)] =~= seq!['4']);
        "4"
    } else if d == 5 {
        proof {
            reveal_strlit("5");
        }
        assert(seq![digit_char(5)] =~= seq!['5']);
        "5"
    } else if d == 6 {
        proof {
            reveal_strlit("6");
        }
        assert(seq![digit_char(6)] =~= seq!['6']);
        "6"
    } else if d == 7 {
        proof {
            reveal_strlit("7");
        }
        assert(seq![digit_char(7)] =~= seq!['7']);
        "7"
    } else if d == 8 {
        proof {
            reveal_strlit("8");
        }
        assert(seq![digit_char(8)] =~= seq!['8']);
        "8"
    } else {
        proof {
            reveal_strlit("9");
        }
        assert(seq![digit_char(9)] =~= seq!['9']);
        "9"
    }
}

/// Writes `n` in decimal.
pub fn decimal_text(n: usize) -> (r: String)
    ensures
        r@ == decimal(n as nat),
    decreases n,
{
    let mut out = if n < 10 {
        String::new()
    } else {
        decimal_text(n / 10)
    };
    out.append(digit(n % 10));
    assert(out@ =~= decimal(n as nat));
    out
}

} // verus!
