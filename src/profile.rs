use vstd::prelude::*;
use vstd::string::*;
use crate::text::{decimal, decimal_of};

verus! {

/// The `Debug` text of a string: the string in double quotes, with quotes,
/// backslashes and control characters written as escapes.
pub uninterp spec fn debug_quoted(s: Seq<char>) -> Seq<char>;

/// Relies on the `Debug` formatting of `str`, which depends on the characters
/// alone.
#[verifier::external_body]
fn debug_string(s: &str) -> (r: String)
    ensures
        r@ == debug_quoted(s@),
{
    format!("{:?}", s)
}

/// A named person with an age, shown as a sentence or as a debug record.
#[derive(Debug, Clone)]
pub struct User {
    pub name: String,
    pub age: u32,
}

impl User {
    pub open spec fn display_spec(&self) -> Seq<char> {
        self.name@ + " is "@ + decimal_of(self.age as nat) + " years old"@
    }

    pub open spec fn debug_spec(&self) -> Seq<char> {
        "User { name: "@ + debug_quoted(self.name@) + ", age: "@ + decimal_of(self.age as nat)
            + " }"@
    }

    pub open spec fn debug_pretty_spec(&self) -> Seq<char> {
        "User {\n    name: "@ + debug_quoted(self.name@) + ",\n    age: "@ + decimal_of(
            self.age as nat,
        ) + ",\n}"@
    }

    /// The sentence `<name> is <age> years old`.
    pub fn display(&self) -> (r: String)
        ensures
            r@ == self.display_spec(),
    {
        let mut out = self.name.clone();
        out.append(" is ");
        out.append(decimal(self.age).as_str());
        out.append(" years old");
        out
    }

    /// The record on one line: `User { name: "<name>", age: <age> }`.
    pub fn debug(&self) -> (r: String)
        ensures
            r@ == self.debug_spec(),
    {
        let mut out = String::from_str("User { name: ");
        out.append(debug_string(self.name.as_str()).as_str());
        out.append(", age: ");
        out.append(decimal(self.age).as_str());
        out.append(" }");
        out
    }

    /// The record with one field per line, each indented by four spaces and
    /// followed by a comma.
    pub fn debug_pretty(&self) -> (r: String)
        ensures
            r@ == self.debug_pretty_spec(),
    {
        let mut out = String::from_str("User {\n    name: ");
        out.append(debug_string(self.name.as_str()).as_str());
        out.append(",\n    age: ");
        out.append(decimal(self.age).as_str());
        out.append(",\n}");
        out
    }
}

} // verus!
