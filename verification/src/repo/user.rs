use vstd::prelude::*;

verus! {

/// A stored user.
pub struct User {
    pub id: u128,
    pub email: String,
}

/// A user with the email taken by its view.
pub struct UserView {
    pub id: u128,
    pub email: Seq<char>,
}

impl View for User {
    type V = UserView;

    open spec fn view(&self) -> UserView {
        UserView { id: self.id, email: self.email@ }
    }
}

/// A user to insert if missing.
pub struct UpsertParams {
    pub id: u128,
    pub email: String,
}

} // verus!
