//! Fixed and randomly chosen strings, borrowed and owned.
use rand::Rng;
use vstd::prelude::*;

verus! {

/// Relies on `rand::Rng::gen_ratio` on the thread-local generator: a fair coin.
/// Nothing is known of the outcome.
#[verifier::external_body]
fn flip_coin() -> (r: bool) {
    rand::thread_rng().gen_ratio(1, 2)
}

pub fn make_fixed_str() -> (r: &'static str)
    ensures
        r@ == "fixed str"@,
{
    "fixed str"
}

/// The borrowed string that a coin showing `heads` selects.
pub fn pick_str(heads: bool) -> (r: &'static str)
    ensures
        heads ==> r@ == "random str a"@,
        !heads ==> r@ == "random str bb"@,
{
    if heads {
        "random str a"
    } else {
        "random str bb"
    }
}

/// One of two borrowed strings, chosen by a fair coin.
pub fn make_random_str() -> (r: &'static str)
    ensures
        r@ == "random str a"@ || r@ == "random str bb"@,
{
    pick_str(flip_coin())
}

pub fn make_fixed_string() -> (r: String)
    ensures
        r@ == "fixed string"@,
{
    String::from_str("fixed string")
}

/// The owned string that a coin showing `heads` selects.
pub fn pick_string(heads: bool) -> (r: String)
    ensures
        heads ==> r@ == "random string a"@,
        !heads ==> r@ == "random string bb"@,
{
    if heads {
        String::from_str("random string a")
    } else {
        String::from_str("random string bb")
    }
}

/// One of two owned strings, chosen by a fair coin.
pub fn make_random_string() -> (r: String)
    ensures
        r@ == "random string a"@ || r@ == "random string bb"@,
{
    pick_string(flip_coin())
}

} // verus!
