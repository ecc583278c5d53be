//! The greeting banner shown over the due list: one of a fixed set of
//! templates, chosen at random, rendered around the profile name.

use vstd::prelude::*;
use vstd::string::StringExecFns;

verus! {

/// How many greeting templates there are.
pub const TITLE_COUNT: usize = 6;

/// The greeting that template `k` renders for `name` (meaningful for
/// `k < TITLE_COUNT`; every later `k` renders the last template).
pub open spec fn greeting_of(name: Seq<char>, k: int) -> Seq<char> {
    if k == 0 {
        "Pitter patter, let's get at 'er, "@ + name + "."@
    } else if k == 1 {
        name + ", how're ya now?"@
    } else if k == 2 {
        "It's a great day for hay, "@ + name + "."@
    } else if k == 3 {
        "You'd best be preparin' for a donnybrook, "@ + name + "."@
    } else if k == 4 {
        "Let's take about 5 to 10% off 'er over there, "@ + name + "."@
    } else {
        "Back to chorin', "@ + name + "."@
    }
}

/// Renders greeting template `k` for `name`.
pub fn greeting(name: &str, k: usize) -> (r: String)
    requires
        k < TITLE_COUNT,
    ensures
        r@ == greeting_of(name@, k as int),
{
    match k {
        0 => {
            let mut s = String::from_str("Pitter patter, let's get at 'er, ");
            s.append(name);
            s.append(".");
            s
        },
        1 => {
            let mut s = String::from_str(name);
            s.append(", how're ya now?");
            s
        },
        2 => {
            let mut s = String::from_str("It's a great day for hay, ");
            s.append(name);
            s.append(".");
            s
        },
        3 => {
            let mut s = String::from_str("You'd best be preparin' for a donnybrook, ");
            s.append(name);
            s.append(".");
            s
        },
        4 => {
            let mut s = String::from_str("Let's take about 5 to 10% off 'er over there, ");
            s.append(name);
            s.append(".");
            s
        },
        _ => {
            let mut s = String::from_str("Back to chorin', ");
            s.append(name);
            s.append(".");
            s
        },
    }
}

/// Relies on rand's `RngExt::random_range` over the thread-local generator:
/// a sample drawn from the range `0..n` lies in that range; the range must be
/// non-empty, or the call panics.
#[verifier::external_body]
fn random_below(n: usize) -> (r: usize)
    requires
        0 < n,
    ensures
        r < n,
{
    rand::RngExt::random_range(&mut rand::rng(), 0..n)
}

/// Picks one of the greeting templates at random and renders it for `name`.
pub fn random_greeting(name: &str) -> (r: String)
    ensures
        exists|k: int| 0 <= k < TITLE_COUNT && r@ == greeting_of(name@, k),
{
    let k = random_below(TITLE_COUNT);
    let r = greeting(name, k);
    proof {
        assert((k as int) < TITLE_COUNT && r@ == greeting_of(name@, k as int));
    }
    r
}

} // verus!
