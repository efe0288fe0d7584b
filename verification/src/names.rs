//! Hierarchical dotted weight names, e.g. `encoder.layer.3.attention.self.query.weight`.

use vstd::prelude::*;
use vstd::string::StringExecFns;

verus! {

/// `name` appended to `prefix` with a dot, the prefix being optional:
/// an empty prefix leaves `name` unchanged.
pub open spec fn joined(prefix: Seq<char>, name: Seq<char>) -> Seq<char> {
    if prefix.len() == 0 {
        name
    } else {
        prefix + seq!['.'] + name
    }
}

/// The decimal digits of `n`, most significant first.
pub open spec fn decimal(n: nat) -> Seq<char>
    decreases n,
{
    if n < 10 {
        seq![digit(n % 10)]
    } else {
        decimal(n / 10).push(digit(n % 10))
    }
}

/// The digit character for a value below ten.
pub open spec fn digit(n: nat) -> char {
    if n == 0 {
        '0'
    } else if n == 1 {
        '1'
    } else if n == 2 {
        '2'
    } else if n == 3 {
        '3'
    } else if n == 4 {
        '4'
    } else if n == 5 {
        '5'
    } else if n == 6 {
        '6'
    } else if n == 7 {
        '7'
    } else if n == 8 {
        '8'
    } else {
        '9'
    }
}

/// Joins `name` onto `prefix` with a dot; an empty prefix stands for the
/// canonical root and adds nothing.
pub fn join(prefix: &str, name: &str) -> (r: String)
    ensures
        r@ == joined(prefix@, name@),
{
    if prefix.is_empty() {
        name.to_owned()
    } else {
        let mut r = prefix.to_owned();
        r.append(".");
        r.append(name);
        proof {
            reveal_strlit(".");
            assert(r@ =~= joined(prefix@, name@));
        }
        r
    }
}

/// The one-character string for a digit value below ten.
fn digit_str(d: usize) -> (r: &'static str)
    requires
        d < 10,
    ensures
        r@ == seq![digit(d as nat)],
{
    proof {
        reveal_strlit("0");
        reveal_strlit("1");
        reveal_strlit("2");
        reveal_strlit("3");
        reveal_strlit("4");
        reveal_strlit("5");
        reveal_strlit("6");
        reveal_strlit("7");
        reveal_strlit("8");
        reveal_strlit("9");
        assert("0"@ =~= seq!['0']);
        assert("1"@ =~= seq!['1']);
        assert("2"@ =~= seq!['2']);
        assert("3"@ =~= seq!['3']);
        assert("4"@ =~= seq!['4']);
        assert("5"@ =~= seq!['5']);
        assert("6"@ =~= seq!['6']);
        assert("7"@ =~= seq!['7']);
        assert("8"@ =~= seq!['8']);
        assert("9"@ =~= seq!['9']);
    }
    if d == 0 {
        "0"
    } else if d == 1 {
        "1"
    } else if d == 2 {
        "2"
    } else if d == 3 {
        "3"
    } else if d == 4 {
        "4"
    } else if d == 5 {
        "5"
    } else if d == 6 {
        "6"
    } else if d == 7 {
        "7"
    } else if d == 8 {
        "8"
    } else {
        "9"
    }
}

/// Writes `n` in decimal, most significant digit first.
pub fn fmt_usize(n: usize) -> (r: String)
    ensures
        r@ == decimal(n as nat),
    decreases n,
{
    if n < 10 {
        digit_str(n).to_owned()
    } else {
        let mut s = fmt_usize(n / 10);
        s.append(digit_str(n % 10));
        proof {
            assert(decimal((n / 10) as nat).push(digit((n % 10) as nat)) =~= decimal(
                (n / 10) as nat,
            ) + seq![digit((n % 10) as nat)]);
        }
        s
    }
}

/// The dotted sub-prefix of encoder layer `i`: `layer.<i>` under `prefix`.
pub open spec fn layer_prefix(prefix: Seq<char>, i: nat) -> Seq<char> {
    joined(prefix, "layer."@ + decimal(i))
}

/// Builds `layer.<i>` under `prefix`.
pub fn join_layer(prefix: &str, i: usize) -> (r: String)
    ensures
        r@ == layer_prefix(prefix@, i as nat),
{
    let mut name = "layer.".to_owned();
    let digits = fmt_usize(i);
    name.append(digits.as_str());
    let r = join(prefix, name.as_str());
    r
}

} // verus!
