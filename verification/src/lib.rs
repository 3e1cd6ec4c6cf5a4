//! A person record: a `User` holds an identifier and owned name and email
//! text. A factory builds one, and a formatting operation renders it as a
//! single line of the shape `User: <name> (<email>)`.

use vstd::prelude::*;

verus! {

/// A person record. No invariant constrains the fields: any identifier and
/// any pair of text values form a valid `User`.
pub struct User {
    pub id: u32,
    pub name: String,
    pub email: String,
}

/// What the factory promises of its result: the identifier is the constant 1
/// and the two text fields hold exactly the characters handed in.
pub open spec fn is_new_user(u: User, name: Seq<char>, email: Seq<char>) -> bool {
    &&& u.id == 1
    &&& u.name@ == name
    &&& u.email@ == email
}

/// The line the display operation produces for the given name and email,
/// without a trailing newline.
pub open spec fn display_line_of(name: Seq<char>, email: Seq<char>) -> Seq<char> {
    "User: "@ + name + " ("@ + email + ")"@
}

impl User {
    /// Builds a record from the two text values, taking ownership of both.
    /// The identifier is always the constant 1: no counter or generator
    /// stands behind it.
    pub fn new(name: String, email: String) -> (r: User)
        ensures
            is_new_user(r, name@, email@),
    {
        User { id: 1, name, email }
    }

    /// The formatted line `User: <name> (<email>)`, exactly as the display
    /// operation writes it, without the trailing newline.
    pub fn display_line(&self) -> (r: String)
        ensures
            r@ == display_line_of(self.name@, self.email@),
    {
        let mut line = String::from_str("User: ");
        line.append(self.name.as_str());
        line.append(" (");
        line.append(self.email.as_str());
        line.append(")");
        line
    }
}

/// The factory is deterministic: two results built from equal inputs agree
/// in every field, identifier included. No hidden state influences it.
pub proof fn lemma_new_deterministic(u1: User, u2: User, name: Seq<char>, email: Seq<char>)
    requires
        is_new_user(u1, name, email),
        is_new_user(u2, name, email),
    ensures
        u1.id == u2.id,
        u1.name@ == u2.name@,
        u1.email@ == u2.email@,
{
}

} // verus!
