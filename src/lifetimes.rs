//! A value that borrows a string for as long as it lives.
use vstd::prelude::*;

verus! {

#[derive(Debug)]
pub struct Foo<'a> {
    pub bar: &'a str,
}

impl<'b> Foo<'b> {
    pub fn new() -> (r: Foo<'b>)
        ensures
            r.bar@ == "bar"@,
    {
        Foo { bar: "bar" }
    }
}

pub fn make_foo<'c>() -> (r: Foo<'c>)
    ensures
        r.bar@ == "bar"@,
{
    Foo { bar: "bar" }
}

} // verus!
