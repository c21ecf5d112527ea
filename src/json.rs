use vstd::prelude::*;
use vstd::string::*;
use crate::text::{decimal, decimal_of, digit_char};

verus! {

#[verifier::external_type_specification]
#[verifier::external_body]
pub struct ExJsonError(serde_json::Error);

/// A lowercase hexadecimal digit.
pub open spec fn hex_digit(d: nat) -> char {
    if d < 10 {
        digit_char(d)
    } else if d == 10 {
        'a'
    } else if d == 11 {
        'b'
    } else if d == 12 {
        'c'
    } else if d == 13 {
        'd'
    } else if d == 14 {
        'e'
    } else {
        'f'
    }
}

/// How one character is written inside a JSON string: quote and backslash
/// behind a backslash, the five control characters that have a short escape
/// with it, the other control characters below U+0020 as `\u00` and two hex
/// digits, and every other character as it is.
pub open spec fn escaped_char(c: char) -> Seq<char> {
    if c == '"' {
        seq!['\\', '"']
    } else if c == '\\' {
        seq!['\\', '\\']
    } else if c == '\x08' {
        seq!['\\', 'b']
    } else if c == '\t' {
        seq!['\\', 't']
    } else if c == '\n' {
        seq!['\\', 'n']
    } else if c == '\x0c' {
        seq!['\\', 'f']
    } else if c == '\r' {
        seq!['\\', 'r']
    } else if (c as u32) < 0x20 {
        seq![
            '\\',
            'u',
            '0',
            '0',
            hex_digit((c as u32 / 16) as nat),
            hex_digit((c as u32 % 16) as nat),
        ]
    } else {
        seq![c]
    }
}

/// The characters of `s`, each written as `escaped_char` writes it.
pub open spec fn escaped(s: Seq<char>) -> Seq<char>
    decreases s.len(),
{
    if s.len() == 0 {
        Seq::empty()
    } else {
        escaped(s.drop_last()) + escaped_char(s.last())
    }
}

/// The JSON string literal that stands for `s`.
pub open spec fn json_quoted(s: Seq<char>) -> Seq<char> {
    seq!['"'] + escaped(s) + seq!['"']
}

/// Relies on `serde_json::to_string` of a `str`: it writes the string between
/// double quotes, escaped through serde_json's `ESCAPE` table, into a `Vec`,
/// which cannot fail.
#[verifier::external_body]
fn json_string(s: &str) -> (r: Result<String, serde_json::Error>)
    ensures
        r is Ok,
        r matches Ok(t) ==> t@ == json_quoted(s@),
{
    serde_json::to_string(s)
}

/// The JSON serializer refused a value.
#[derive(Debug, Clone, Copy, PartialEq, Eq, Structural)]
pub enum JsonError {
    Serialize,
}

/// One object member: the quoted key, a colon, and the value's text.
pub open spec fn member(field: (Seq<char>, Seq<char>)) -> Seq<char> {
    json_quoted(field.0) + seq![':'] + field.1
}

/// The members of an object, in order, separated by commas.
pub open spec fn members(fields: Seq<(Seq<char>, Seq<char>)>) -> Seq<char>
    decreases fields.len(),
{
    if fields.len() == 0 {
        Seq::empty()
    } else if fields.len() == 1 {
        member(fields[0])
    } else {
        members(fields.drop_last()) + seq![','] + member(fields.last())
    }
}

/// A JSON object with the given keys and value texts, in order.
pub open spec fn json_object(fields: Seq<(Seq<char>, Seq<char>)>) -> Seq<char> {
    seq!['{'] + members(fields) + seq!['}']
}

pub open spec fn fields_view(fields: Seq<(&str, String)>) -> Seq<(Seq<char>, Seq<char>)> {
    fields.map_values(|f: (&str, String)| (f.0@, f.1@))
}

/// Writes a JSON object whose members are the given keys, each with the
/// given value text.
pub fn object_text(fields: &Vec<(&str, String)>) -> (r: Result<String, JsonError>)
    ensures
        r is Ok,
        r matches Ok(t) ==> t@ == json_object(fields_view(fields@)),
{
    proof {
        reveal_strlit("{");
        reveal_strlit("}");
    }
    let mut out = String::from_str("{");
    let mut i: usize = 0;
    while i < fields.len()
        invariant
            i <= fields@.len(),
            out@ == seq!['{'] + members(fields_view(fields@.take(i as int))),
        decreases fields@.len() - i,
    {
        let key = match json_string(fields[i].0) {
            Ok(k) => k,
            Err(_) => return Err(JsonError::Serialize),
        };
        proof {
            reveal_strlit(",");
            reveal_strlit(":");
        }
        let ghost before = out@;
        let ghost sep: Seq<char> = if i > 0 { seq![','] } else { Seq::empty() };
        if i > 0 {
            out.append(",");
        }
        assert(out@ =~= before + sep);
        out.append(key.as_str());
        out.append(":");
        out.append(fields[i].1.as_str());
        assert(out@ =~= before + sep + member((fields@[i as int].0@, fields@[i as int].1@)));
        proof {
            let prev = fields_view(fields@.take(i as int));
            let next = fields_view(fields@.take(i + 1));
            assert(next.drop_last() =~= prev);
            assert(next.last() == (fields@[i as int].0@, fields@[i as int].1@));
            if i == 0 {
                assert(prev.len() == 0);
                assert(next.len() == 1);
            }
            assert(out@ =~= seq!['{'] + members(next));
        }
        i += 1;
    }
    assert(fields@.take(fields@.len() as int) =~= fields@);
    out.append("}");
    Ok(out)
}

/// A user, written as a JSON object with the members `name` and `age`.
#[derive(Debug, Clone)]
pub struct User {
    pub name: String,
    pub age: u32,
}

impl User {
    pub open spec fn fields(&self) -> Seq<(Seq<char>, Seq<char>)> {
        seq![("name"@, json_quoted(self.name@)), ("age"@, decimal_of(self.age as nat))]
    }

    /// Writes the user as a JSON object.
    pub fn to_json(&self) -> (r: Result<String, JsonError>)
        ensures
            r is Ok,
            r matches Ok(t) ==> t@ == json_object(self.fields()),
    {
        let name = match json_string(self.name.as_str()) {
            Ok(t) => t,
            Err(_) => return Err(JsonError::Serialize),
        };
        let fields = vec![("name", name), ("age", decimal(self.age))];
        assert(fields_view(fields@) =~= self.fields());
        object_text(&fields)
    }
}

/// A person, written as a JSON object: the name under the key `full_name`,
/// the email only where there is one, and never the password.
#[derive(Debug, Clone)]
pub struct Person {
    pub name: String,
    pub email: Option<String>,
    pub password: String,
}

/// The members of a person's JSON object, given its name and email.
pub open spec fn person_fields(name: Seq<char>, email: Option<Seq<char>>) -> Seq<
    (Seq<char>, Seq<char>),
> {
    let head = seq![("full_name"@, json_quoted(name))];
    match email {
        Some(e) => head.push(("email"@, json_quoted(e))),
        None => head,
    }
}

impl Person {
    pub open spec fn email_view(&self) -> Option<Seq<char>> {
        match self.email {
            Some(e) => Some(e@),
            None => None,
        }
    }

    pub open spec fn fields(&self) -> Seq<(Seq<char>, Seq<char>)> {
        person_fields(self.name@, self.email_view())
    }

    /// Writes the person as a JSON object.
    pub fn to_json(&self) -> (r: Result<String, JsonError>)
        ensures
            r is Ok,
            r matches Ok(t) ==> t@ == json_object(self.fields()),
    {
        let name = match json_string(self.name.as_str()) {
            Ok(t) => t,
            Err(_) => return Err(JsonError::Serialize),
        };
        let mut fields = vec![("full_name", name)];
        match &self.email {
            Some(e) => {
                let email = match json_string(e.as_str()) {
                    Ok(t) => t,
                    Err(_) => return Err(JsonError::Serialize),
                };
                fields.push(("email", email));
            },
            None => {},
        }
        assert(fields_view(fields@) =~= self.fields());
        object_text(&fields)
    }
}

/// A person without an email is written without an `email` member: the only
/// member is the name, whatever the password.
pub proof fn lemma_absent_email_omitted(p: Person)
    requires
        p.email is None,
    ensures
        forall|i: int| 0 <= i < p.fields().len() ==> #[trigger] p.fields()[i].0 != "email"@,
        p.fields() == person_fields(p.name@, None),
{
    reveal_strlit("full_name");
    reveal_strlit("email");
    assert(p.fields().len() == 1);
    assert("full_name"@.len() != "email"@.len());
}

/// The state of an account, written as the JSON string of its name.
#[derive(Debug, Clone, Copy, PartialEq, Eq, Structural)]
pub enum Status {
    Active,
    Inactive,
    Pending,
}

impl Status {
    pub open spec fn name_spec(&self) -> Seq<char> {
        match self {
            Status::Active => "Active"@,
            Status::Inactive => "Inactive"@,
            Status::Pending => "Pending"@,
        }
    }

    /// The name of the state.
    pub fn name(&self) -> (r: &'static str)
        ensures
            r@ == self.name_spec(),
    {
        match self {
            Status::Active => "Active",
            Status::Inactive => "Inactive",
            Status::Pending => "Pending",
        }
    }

    /// Writes the state as a JSON string.
    pub fn to_json(&self) -> (r: Result<String, JsonError>)
        ensures
            r is Ok,
            r matches Ok(t) ==> t@ == json_quoted(self.name_spec()),
    {
        match json_string(self.name()) {
            Ok(t) => Ok(t),
            Err(_) => Err(JsonError::Serialize),
        }
    }
}

} // verus!
