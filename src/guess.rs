//! A guess in the number-guessing game: an integer within fixed bounds.
use vstd::prelude::*;
use vstd::string::to_string_from_display_ensures;

verus! {

pub const MIN: i32 = 1;

pub const MAX: i32 = 100;

pub struct Guess {
    value: i32,
}

impl View for Guess {
    type V = i32;

    closed spec fn view(&self) -> i32 {
        self.value
    }
}

/// How a guess compares with the secret number.
#[derive(Debug, Clone, Copy, PartialEq, Eq, Structural)]
pub enum Verdict {
    TooSmall,
    JustRight,
    TooLarge,
}

impl Guess {
    #[verifier::type_invariant]
    spec fn inv(&self) -> bool {
        MIN <= self.value <= MAX
    }

    /// A guess of `value`, or an error that names it when it lies outside
    /// `MIN..=MAX`.
    pub fn new(value: i32) -> (r: Result<Guess, String>)
        ensures
            r is Ok <==> MIN <= value <= MAX,
            r is Ok ==> r->Ok_0@ == value,
            r is Err ==> exists|d: String|
                to_string_from_display_ensures::<i32>(&value, d) && r->Err_0@
                    == "Guess value must be between 1 and 100 inclusive, got "@ + d@ + "."@,
    {
        if value < MIN || value > MAX {
            let digits = value.to_string();
            let msg = String::from_str("Guess value must be between 1 and 100 inclusive, got ").concat(
                digits.as_str(),
            ).concat(".");
            Err(msg)
        } else {
            Ok(Guess { value })
        }
    }

    /// Whether this guess is below, at or above `secret`.
    pub fn judge(&self, secret: i32) -> (r: Verdict)
        ensures
            r == if self@ < secret {
                Verdict::TooSmall
            } else if self@ == secret {
                Verdict::JustRight
            } else {
                Verdict::TooLarge
            },
    {
        if self.value < secret {
            Verdict::TooSmall
        } else if self.value == secret {
            Verdict::JustRight
        } else {
            Verdict::TooLarge
        }
    }

    pub fn value(&self) -> (r: i32)
        ensures
            r == self@,
            MIN <= r <= MAX,
    {
        proof {
            use_type_invariant(self);
        }
        self.value
    }
}

} // verus!
