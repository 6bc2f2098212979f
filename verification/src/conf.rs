use vstd::prelude::*;

use crate::rand_str;

verus! {

/// One subscription: the small integer index that names its storage
/// namespace, and its account coordinates.
#[derive(Clone, Debug)]
pub struct SubFull {
    pub idx: u8,
    pub domain: String,
    pub username: String,
    pub password: String,
}

/// The character for one decimal digit.
pub open spec fn digit_char(d: int) -> char {
    if d == 0 {
        '0'
    } else if d == 1 {
        '1'
    } else if d == 2 {
        '2'
    } else if d == 3 {
        '3'
    } else if d == 4 {
        '4'
    } else if d == 5 {
        '5'
    } else if d == 6 {
        '6'
    } else if d == 7 {
        '7'
    } else if d == 8 {
        '8'
    } else {
        '9'
    }
}

/// The decimal digits of `n`, most significant first.
pub open spec fn spec_decimal(n: nat) -> Seq<char>
    decreases n,
{
    if n < 10 {
        seq![digit_char(n as int)]
    } else {
        spec_decimal(n / 10).push(digit_char((n % 10) as int))
    }
}

fn push_digit(s: &mut String, d: u8)
    requires
        d < 10,
    ensures
        final(s)@ == old(s)@.push(digit_char(d as int)),
{
    proof {
        reveal_strlit("0");
        reveal_strlit("1");
        reveal_strlit("2");
        reveal_strlit("3");
        reveal_strlit("4");
        reveal_strlit("5");
        reveal_strlit("6");
        reveal_strlit("7");
        reveal_strlit("8");
        reveal_strlit("9");
    }
    match d {
        0 => s.append("0"),
        1 => s.append("1"),
        2 => s.append("2"),
        3 => s.append("3"),
        4 => s.append("4"),
        5 => s.append("5"),
        6 => s.append("6"),
        7 => s.append("7"),
        8 => s.append("8"),
        _ => s.append("9"),
    }
    proof {
        assert(s@ =~= old(s)@.push(digit_char(d as int)));
    }
}

impl SubFull {
    /// The namespace directory for this subscription: the decimal string of
    /// its index, relative to the working directory.
    pub fn mk_sub_dir_path(&self) -> (r: String)
        ensures
            r@ == spec_decimal(self.idx as nat),
    {
        let n = self.idx;
        let mut s = String::new();
        if n >= 100 {
            push_digit(&mut s, n / 100);
        }
        if n >= 10 {
            push_digit(&mut s, (n / 10) % 10);
        }
        push_digit(&mut s, n % 10);
        proof {
            let nn = n as nat;
            if n >= 100 {
                assert((n as int / 10) / 10 == n as int / 100) by (nonlinear_arith);
                assert(spec_decimal(nn / 100) =~= seq![digit_char((nn / 100) as int)]);
                assert(spec_decimal(nn / 10) =~= spec_decimal(nn / 100).push(
                    digit_char(((nn / 10) % 10) as int),
                ));
                assert(s@ =~= spec_decimal(nn));
            } else if n >= 10 {
                assert(spec_decimal(nn / 10) =~= seq![digit_char((nn / 10) as int)]);
                assert(s@ =~= spec_decimal(nn));
            } else {
                assert(s@ =~= spec_decimal(nn));
            }
        }
        s
    }
}

/// The set of subscriptions a run works over.
#[derive(Debug)]
pub struct Subs(pub Vec<SubFull>);

/// Relies on str::to_ascii_lowercase: the result is a character-for-character
/// mapping of the input, so its length is the input's length.
#[verifier::external_body]
fn to_ascii_lowercase_str(s: &str) -> (r: String)
    ensures
        r@.len() == s@.len(),
{
    s.to_ascii_lowercase()
}

impl Subs {
    /// Generate `n` subscriptions, indexed 1 through `n`, with random
    /// lowercase domains and random account names.
    pub fn gen_subs(n: u8) -> (r: Self)
        ensures
            r.0@.len() == n as int,
            forall|k: int| 0 <= k < n as int ==> (#[trigger] r.0@[k]).idx == k + 1,
            forall|k: int|
                0 <= k < n as int ==> (#[trigger] r.0@[k]).domain@.len() == 28 && r.0@[
                    k
                ].username@.len() == 16 && r.0@[k].password@.len() == 16,
    {
        let mut subs: Vec<SubFull> = Vec::new();
        let mut i: u8 = 0;
        while i < n
            invariant
                i <= n,
                subs@.len() == i as int,
                forall|k: int| 0 <= k < i as int ==> (#[trigger] subs@[k]).idx == k + 1,
                forall|k: int|
                    0 <= k < i as int ==> (#[trigger] subs@[k]).domain@.len() == 28 && subs@[
                        k
                    ].username@.len() == 16 && subs@[k].password@.len() == 16,
            decreases n - i,
        {
            proof {
                reveal_strlit("https://");
                reveal_strlit(".com");
            }
            let lower = to_ascii_lowercase_str(rand_str(16, 16).as_str());
            let mut domain = String::new();
            domain.append("https://");
            domain.append(lower.as_str());
            domain.append(".com");
            let username = rand_str(16, 16);
            let password = rand_str(16, 16);
            i = i + 1;
            subs.push(SubFull { idx: i, domain, username, password });
        }
        Subs(subs)
    }
}

} // verus!
