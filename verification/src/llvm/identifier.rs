//! Identifiers: the names of symbols and values.

use vstd::prelude::*;

verus! {

/// The characters that an identifier may begin with.
pub open spec fn identifier_start(c: char) -> bool {
    ||| 'a' <= c <= 'z'
    ||| 'A' <= c <= 'Z'
    ||| c == '_'
}

/// The characters that an identifier is made of.
pub open spec fn identifier_part(c: char) -> bool {
    ||| identifier_start(c)
    ||| '0' <= c <= '9'
}

/// `text` is an identifier: an ASCII letter or underscore, then any number of
/// ASCII letters, digits and underscores.
pub open spec fn valid_identifier(text: Seq<char>) -> bool {
    &&& text.len() > 0
    &&& identifier_start(text[0])
    &&& forall|k: int| 0 <= k < text.len() ==> identifier_part(#[trigger] text[k])
}

/// Tests for a character that an identifier may begin with.
pub fn is_identifier_start(c: char) -> (found: bool)
    ensures
        found == identifier_start(c),
{
    ('a' <= c && c <= 'z') || ('A' <= c && c <= 'Z') || c == '_'
}

/// Tests for a character that an identifier is made of.
pub fn is_identifier_part(c: char) -> (found: bool)
    ensures
        found == identifier_part(c),
{
    is_identifier_start(c) || ('0' <= c && c <= '9')
}

/// Asks `pliron::identifier::Identifier::is_valid`. It goes over the bytes of
/// `text`: the first has to be an ASCII letter or `_`, each other one an ASCII
/// letter, an ASCII digit or `_`, and there has to be a first. No byte of a
/// character outside ASCII is any of these, so the bytes pass exactly if the
/// characters do.
#[verifier::external_body]
fn is_valid(text: &str) -> (valid: bool)
    ensures
        valid == valid_identifier(text@),
{
    pliron::identifier::Identifier::is_valid(text)
}

/// A text that is no identifier.
#[derive(Debug)]
pub struct MalformedIdentifierErr(pub String);

impl MalformedIdentifierErr {
    /// The text of the error.
    pub fn message(&self) -> (message: String)
        ensures
            message@ == "Malformed identifier "@ + self.0@,
    {
        let mut message = "Malformed identifier ".to_owned();
        message.append(self.0.as_str());
        message
    }
}

/// A name that is a valid identifier.
#[derive(Debug)]
pub struct Identifier {
    text: String,
}

impl Identifier {
    /// The characters of the identifier.
    pub closed spec fn view(&self) -> Seq<char> {
        self.text@
    }

    #[verifier::type_invariant]
    spec fn well_formed(self) -> bool {
        valid_identifier(self.text@)
    }

    /// The identifier `text`, if it is one.
    pub fn try_new(text: String) -> (made: Result<Identifier, MalformedIdentifierErr>)
        ensures
            if valid_identifier(text@) {
                made matches Ok(name) && name@ == text@
            } else {
                made matches Err(error) && error.0@ == text@
            },
    {
        if is_valid(text.as_str()) {
            Ok(Identifier { text })
        } else {
            Err(MalformedIdentifierErr(text))
        }
    }

    /// The characters of the identifier.
    pub fn as_str(&self) -> (text: &str)
        ensures
            text@ == self@,
            valid_identifier(self@),
    {
        proof {
            use_type_invariant(self);
        }
        self.text.as_str()
    }

    /// A second identifier of the same name.
    pub fn duplicate(&self) -> (copy: Identifier)
        ensures
            copy@ == self@,
    {
        proof {
            use_type_invariant(self);
        }
        let text = self.text.clone();
        Identifier { text }
    }

    /// Whether two identifiers are the same name.
    pub fn same(&self, other: &Identifier) -> (same: bool)
        ensures
            same == (self@ == other@),
    {
        self.text == other.text
    }
}

/// Identifiers by code points: an ASCII letter or `_`, then ASCII letters, ASCII
/// digits or `_`. What is put behind an identifier keeps it one exactly if it is
/// made of these, and no identifier is empty or begins with a digit.
pub proof fn identifiers_are_letters_and_digits(name: Seq<char>, c: char)
    ensures
        !valid_identifier(Seq::<char>::empty()),
        valid_identifier(seq![c]) <==> {
            let point = c as u32;
            ||| 65 <= point <= 90
            ||| 97 <= point <= 122
            ||| point == 95
        },
        name.len() > 0 ==> (valid_identifier(name.push(c)) <==> valid_identifier(name) && {
            let point = c as u32;
            ||| 48 <= point <= 57
            ||| 65 <= point <= 90
            ||| 97 <= point <= 122
            ||| point == 95
        }),
{
    assert(seq![c][0] == c);
    let longer = name.push(c);
    if name.len() > 0 {
        assert(longer[0] == name[0]);
        if valid_identifier(longer) {
            assert forall|k: int| 0 <= k < name.len() implies identifier_part(
                #[trigger] name[k],
            ) by {
                assert(longer[k] == name[k]);
            }
            assert(identifier_part(longer[longer.len() - 1]));
        }
    }
}

/// An identifier is made exactly of the texts that are one, and a text that is
/// none is named in the error.
pub proof fn identifiers_are_made_of_valid_texts(
    text: String,
    made: Result<Identifier, MalformedIdentifierErr>,
)
    requires
        call_ensures(Identifier::try_new, (text,), made),
    ensures
        made is Ok <==> valid_identifier(text@),
        made matches Ok(name) ==> name@ == text@,
        made matches Err(error) ==> error.0@ == text@,
{
}

} // verus!
