use vstd::prelude::*;
use crate::repo::user::{User, UserView};

verus! {

/// A user as the API returns it.
pub struct UserDto {
    pub id: u128,
    pub email: String,
}

impl View for UserDto {
    type V = UserView;

    open spec fn view(&self) -> UserView {
        UserView { id: self.id, email: self.email@ }
    }
}

/// The DTOs of a list of users, in order.
pub fn user_dtos(users: Vec<User>) -> (dtos: Vec<UserDto>)
    ensures
        dtos@.len() == users@.len(),
        forall|i: int| 0 <= i < users@.len() ==> #[trigger] dtos@[i]@ == users@[i]@,
{
    broadcast use vstd::std_specs::vec::axiom_spec_into_iter;
    let ghost source = users@;
    let mut dtos: Vec<UserDto> = Vec::new();
    for user in it: users.into_iter()
        invariant
            it.seq() == source,
            dtos@.len() == it.index(),
            forall|i: int| 0 <= i < it.index() ==> #[trigger] dtos@[i]@ == source[i]@,
    {
        dtos.push(UserDto::from(user));
    }
    dtos
}

impl From<User> for UserDto {
    fn from(user: User) -> (dto: UserDto) {
        UserDto { id: user.id, email: user.email }
    }
}

impl vstd::std_specs::convert::FromSpecImpl<User> for UserDto {
    open spec fn obeys_from_spec() -> bool {
        true
    }

    open spec fn from_spec(user: User) -> UserDto {
        UserDto { id: user.id, email: user.email }
    }
}

} // verus!
