use vstd::prelude::*;

verus! {

/// One credential entry as it is composed before insertion: the store
/// assigns the id, so a `Password` value carries none.
///
/// Every field is free-form text; an empty string is a valid value for
/// any of them, though the title serves as the primary label.
pub struct Password {
    pub title: String,
    pub username: String,
    pub password: String,
    pub email: String,
    pub recovery_codes: String,
    pub access_tokens: String,
    pub notes: String,
}

/// The mathematical value of a `Password`: each field as a sequence of
/// characters.
pub struct PasswordView {
    pub title: Seq<char>,
    pub username: Seq<char>,
    pub password: Seq<char>,
    pub email: Seq<char>,
    pub recovery_codes: Seq<char>,
    pub access_tokens: Seq<char>,
    pub notes: Seq<char>,
}

impl View for Password {
    type V = PasswordView;

    open spec fn view(&self) -> PasswordView {
        PasswordView {
            title: self.title@,
            username: self.username@,
            password: self.password@,
            email: self.email@,
            recovery_codes: self.recovery_codes@,
            access_tokens: self.access_tokens@,
            notes: self.notes@,
        }
    }
}

impl Password {
    pub fn new(
        title: String,
        username: String,
        password: String,
        email: String,
        recovery_codes: String,
        access_tokens: String,
        notes: String,
    ) -> (r: Password)
        ensures
            r@ == (PasswordView {
                title: title@,
                username: username@,
                password: password@,
                email: email@,
                recovery_codes: recovery_codes@,
                access_tokens: access_tokens@,
                notes: notes@,
            }),
    {
        Password { title, username, password, email, recovery_codes, access_tokens, notes }
    }

    /// A field-for-field copy; the two values are equal.
    pub fn duplicate(&self) -> (r: Password)
        ensures
            r@ == self@,
    {
        Password {
            title: self.title.clone(),
            username: self.username.clone(),
            password: self.password.clone(),
            email: self.email.clone(),
            recovery_codes: self.recovery_codes.clone(),
            access_tokens: self.access_tokens.clone(),
            notes: self.notes.clone(),
        }
    }
}

/// A credential entry as the store hands it back: the entry together with
/// the id the store assigned on insertion.
pub struct StoredPassword {
    pub id: i64,
    pub entry: Password,
}

/// The mathematical value of a `StoredPassword`.
pub struct RowView {
    pub id: i64,
    pub entry: PasswordView,
}

impl View for StoredPassword {
    type V = RowView;

    open spec fn view(&self) -> RowView {
        RowView { id: self.id, entry: self.entry@ }
    }
}

impl StoredPassword {
    pub fn new(id: i64, entry: Password) -> (r: StoredPassword)
        ensures
            r@ == (RowView { id: id, entry: entry@ }),
    {
        StoredPassword { id, entry }
    }

    /// A field-for-field copy; the two values are equal.
    pub fn duplicate(&self) -> (r: StoredPassword)
        ensures
            r@ == self@,
    {
        StoredPassword { id: self.id, entry: self.entry.duplicate() }
    }
}

} // verus!
