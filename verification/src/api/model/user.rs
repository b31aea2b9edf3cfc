use vstd::prelude::*;

use crate::api::validation::{
    check_email, check_min_length, email_accepted, failed_fields,
    lemma_encoding_is_empty_iff_string_is, report_of, reported_paths, FieldCheck,
};
use crate::kernel::model::id::UserId;
use crate::kernel::model::role::Role;
use crate::kernel::model::user::event::{CreateUser, UpdateUserPassword, UpdateUserRole};
use crate::kernel::model::user::User;

verus! {

/// A role as requests and responses name it.
#[derive(Clone, Copy, Debug, PartialEq, Eq, Structural)]
pub enum RoleName {
    Admin,
    User,
}

impl RoleName {
    /// The name of a role.
    pub open spec fn of(value: Role) -> RoleName {
        match value {
            Role::Admin => RoleName::Admin,
            Role::User => RoleName::User,
        }
    }
}

impl From<Role> for RoleName {
    fn from(value: Role) -> (name: Self)
        ensures
            name == RoleName::of(value),
    {
        match value {
            Role::Admin => RoleName::Admin,
            Role::User => RoleName::User,
        }
    }
}

impl vstd::std_specs::convert::FromSpecImpl<Role> for RoleName {
    open spec fn obeys_from_spec() -> bool {
        true
    }

    open spec fn from_spec(value: Role) -> Self {
        RoleName::of(value)
    }
}

impl Role {
    /// The role that a name stands for.
    pub open spec fn of(value: RoleName) -> Role {
        match value {
            RoleName::Admin => Role::Admin,
            RoleName::User => Role::User,
        }
    }
}

impl From<RoleName> for Role {
    fn from(value: RoleName) -> (role: Self)
        ensures
            role == Role::of(value),
    {
        match value {
            RoleName::Admin => Role::Admin,
            RoleName::User => Role::User,
        }
    }
}

impl vstd::std_specs::convert::FromSpecImpl<RoleName> for Role {
    open spec fn obeys_from_spec() -> bool {
        true
    }

    open spec fn from_spec(value: RoleName) -> Self {
        Role::of(value)
    }
}

/// A role and its name stand for each other: turning one into the other
/// and back changes nothing, in either direction.
pub proof fn lemma_role_and_name_round_trip(role: Role, name: RoleName)
    ensures
        Role::of(RoleName::of(role)) == role,
        RoleName::of(Role::of(name)) == name,
{
}

/// The body of the response that lists the users.
pub struct UsersResponse {
    pub items: Vec<UserResponse>,
}

/// A user as a response shows one.
pub struct UserResponse {
    pub id: UserId,
    pub name: String,
    pub email: String,
    pub role: RoleName,
}

impl UserResponse {
    /// What a response shows of a user: all that the store reports, the role
    /// by its name.
    pub open spec fn of(value: User) -> UserResponse {
        UserResponse {
            id: value.id,
            name: value.name,
            email: value.email,
            role: RoleName::of(value.role),
        }
    }
}

impl From<User> for UserResponse {
    fn from(value: User) -> (response: Self)
        ensures
            response == UserResponse::of(value),
    {
        let User { id, name, email, role } = value;

        UserResponse { id, name, email, role: RoleName::from(role) }
    }
}

impl vstd::std_specs::convert::FromSpecImpl<User> for UserResponse {
    open spec fn obeys_from_spec() -> bool {
        true
    }

    open spec fn from_spec(value: User) -> Self {
        UserResponse::of(value)
    }
}

/// The body of a request to change one's password.
pub struct UpdateUserPasswordRequest {
    pub current_password: String,
    pub new_password: String,
}

impl UpdateUserPasswordRequest {
    /// Whether the body keeps its rules: neither password is empty.
    pub open spec fn is_valid(self) -> bool {
        &&& self.current_password@.len() >= 1
        &&& self.new_password@.len() >= 1
    }

    /// The fields that break their rule, in the order of the body.
    pub open spec fn broken_rules(self) -> Seq<Seq<char>> {
        let current: Seq<Seq<char>> = if self.current_password@.len() >= 1 {
            seq![]
        } else {
            seq!["current_password"@]
        };
        let new: Seq<Seq<char>> = if self.new_password@.len() >= 1 {
            seq![]
        } else {
            seq!["new_password"@]
        };
        current + new
    }

    /// Checks the body against its rules. The report of a body that
    /// breaks some holds one entry for each field that does, under the
    /// field's name.
    pub fn validate(&self) -> (verdict: Result<(), garde::Report>)
        ensures
            verdict is Ok <==> self.is_valid(),
            verdict matches Err(report) ==> reported_paths(report) == self.broken_rules(),
    {
        let checks = vec![
            FieldCheck {
                field: "current_password",
                outcome: check_min_length(&self.current_password, 1),
            },
            FieldCheck {
                field: "new_password",
                outcome: check_min_length(&self.new_password, 1),
            },
        ];
        proof {
            lemma_encoding_is_empty_iff_string_is(self.current_password@);
            lemma_encoding_is_empty_iff_string_is(self.new_password@);
            let one = checks@.drop_last();
            assert(checks@.last() == checks@[1] && one.last() == checks@[0]);
            assert(failed_fields(one.drop_last()) =~= Seq::<Seq<char>>::empty());
            assert(failed_fields(one) =~= failed_fields(one.drop_last()) + if checks@[0].outcome is Err {
                seq!["current_password"@]
            } else {
                seq![]
            });
            assert(failed_fields(checks@) =~= self.broken_rules());
        }
        report_of(checks)
    }

    /// A body keeps its rules exactly if none of its fields breaks one.
    pub proof fn lemma_valid_iff_no_rule_is_broken(self)
        ensures
            self.is_valid() <==> self.broken_rules().len() == 0,
    {
    }
}

/// A password change together with the user it is for.
pub struct UpdateUserPasswordRequestWithUserId(UserId, UpdateUserPasswordRequest);

impl UpdateUserPasswordRequestWithUserId {
    /// The user whose password is to change.
    pub closed spec fn user_id(self) -> UserId {
        self.0
    }

    /// The change asked for.
    pub closed spec fn request(self) -> UpdateUserPasswordRequest {
        self.1
    }

    pub fn new(user_id: UserId, request: UpdateUserPasswordRequest) -> (paired: Self)
        ensures
            paired.user_id() == user_id,
            paired.request() == request,
    {
        UpdateUserPasswordRequestWithUserId(user_id, request)
    }
}

impl UpdateUserPassword {
    /// The command that a password change asks for.
    pub open spec fn of(value: UpdateUserPasswordRequestWithUserId) -> UpdateUserPassword {
        UpdateUserPassword {
            user_id: value.user_id(),
            current_password: value.request().current_password,
            new_password: value.request().new_password,
        }
    }
}

impl From<UpdateUserPasswordRequestWithUserId> for UpdateUserPassword {
    fn from(value: UpdateUserPasswordRequestWithUserId) -> (command: Self)
        ensures
            command == UpdateUserPassword::of(value),
    {
        let UpdateUserPasswordRequestWithUserId(
            user_id,
            UpdateUserPasswordRequest { current_password, new_password },
        ) = value;

        UpdateUserPassword { user_id, current_password, new_password }
    }
}

impl vstd::std_specs::convert::FromSpecImpl<UpdateUserPasswordRequestWithUserId> for UpdateUserPassword {
    open spec fn obeys_from_spec() -> bool {
        true
    }

    open spec fn from_spec(value: UpdateUserPasswordRequestWithUserId) -> Self {
        UpdateUserPassword::of(value)
    }
}

/// The body of a request to register a user.
pub struct CreateUserRequest {
    pub name: String,
    pub email: String,
    pub password: String,
}

impl CreateUserRequest {
    /// Whether the body keeps its rules: the name and the password are
    /// not empty, and the email rule accepts the address.
    pub open spec fn is_valid(self) -> bool {
        &&& self.name@.len() >= 1
        &&& email_accepted(self.email@)
        &&& self.password@.len() >= 1
    }

    /// The fields that break their rule, in the order of the body.
    pub open spec fn broken_rules(self) -> Seq<Seq<char>> {
        let name: Seq<Seq<char>> = if self.name@.len() >= 1 {
            seq![]
        } else {
            seq!["name"@]
        };
        let email: Seq<Seq<char>> = if email_accepted(self.email@) {
            seq![]
        } else {
            seq!["email"@]
        };
        let password: Seq<Seq<char>> = if self.password@.len() >= 1 {
            seq![]
        } else {
            seq!["password"@]
        };
        name + email + password
    }

    /// Checks the body against its rules. The report of a body that
    /// breaks some holds one entry for each field that does, under the
    /// field's name.
    pub fn validate(&self) -> (verdict: Result<(), garde::Report>)
        ensures
            verdict is Ok <==> self.is_valid(),
            verdict matches Err(report) ==> reported_paths(report) == self.broken_rules(),
    {
        let checks = vec![
            FieldCheck { field: "name", outcome: check_min_length(&self.name, 1) },
            FieldCheck { field: "email", outcome: check_email(&self.email) },
            FieldCheck { field: "password", outcome: check_min_length(&self.password, 1) },
        ];
        proof {
            lemma_encoding_is_empty_iff_string_is(self.name@);
            lemma_encoding_is_empty_iff_string_is(self.password@);
            let two = checks@.drop_last();
            let one = two.drop_last();
            assert(checks@.last() == checks@[2] && two.last() == checks@[1] && one.last()
                == checks@[0]);
            assert(failed_fields(one.drop_last()) =~= Seq::<Seq<char>>::empty());
            assert(failed_fields(one) =~= failed_fields(one.drop_last()) + if checks@[0].outcome is Err {
                seq!["name"@]
            } else {
                seq![]
            });
            assert(failed_fields(two) =~= failed_fields(one) + if checks@[1].outcome is Err {
                seq!["email"@]
            } else {
                seq![]
            });
            assert(failed_fields(checks@) =~= self.broken_rules());
        }
        report_of(checks)
    }

    /// A body keeps its rules exactly if none of its fields breaks one.
    pub proof fn lemma_valid_iff_no_rule_is_broken(self)
        ensures
            self.is_valid() <==> self.broken_rules().len() == 0,
    {
    }
}

impl CreateUser {
    /// The command that a registration asks for: it takes over every field.
    pub open spec fn of(value: CreateUserRequest) -> CreateUser {
        CreateUser { name: value.name, email: value.email, password: value.password }
    }
}

impl From<CreateUserRequest> for CreateUser {
    fn from(value: CreateUserRequest) -> (command: Self)
        ensures
            command == CreateUser::of(value),
    {
        let CreateUserRequest { name, email, password } = value;

        CreateUser { name, email, password }
    }
}

impl vstd::std_specs::convert::FromSpecImpl<CreateUserRequest> for CreateUser {
    open spec fn obeys_from_spec() -> bool {
        true
    }

    open spec fn from_spec(value: CreateUserRequest) -> Self {
        CreateUser::of(value)
    }
}

/// The body of a request to change a user's role.
pub struct UpdateUserRoleRequest {
    pub role: RoleName,
}

/// A role change together with the user it is for.
pub struct UpdateUserRoleRequestWithUserId(UserId, UpdateUserRoleRequest);

impl UpdateUserRoleRequestWithUserId {
    /// The user whose role is to change.
    pub closed spec fn user_id(self) -> UserId {
        self.0
    }

    /// The change asked for.
    pub closed spec fn request(self) -> UpdateUserRoleRequest {
        self.1
    }

    pub fn new(user_id: UserId, request: UpdateUserRoleRequest) -> (paired: Self)
        ensures
            paired.user_id() == user_id,
            paired.request() == request,
    {
        UpdateUserRoleRequestWithUserId(user_id, request)
    }
}

impl UpdateUserRole {
    /// The command that a role change asks for.
    pub open spec fn of(value: UpdateUserRoleRequestWithUserId) -> UpdateUserRole {
        UpdateUserRole {
            user_id: value.user_id(),
            role: Role::of(value.request().role),
        }
    }
}

impl From<UpdateUserRoleRequestWithUserId> for UpdateUserRole {
    fn from(value: UpdateUserRoleRequestWithUserId) -> (command: Self)
        ensures
            command == UpdateUserRole::of(value),
    {
        let UpdateUserRoleRequestWithUserId(user_id, UpdateUserRoleRequest { role }) = value;

        UpdateUserRole { user_id, role: Role::from(role) }
    }
}

impl vstd::std_specs::convert::FromSpecImpl<UpdateUserRoleRequestWithUserId> for UpdateUserRole {
    open spec fn obeys_from_spec() -> bool {
        true
    }

    open spec fn from_spec(value: UpdateUserRoleRequestWithUserId) -> Self {
        UpdateUserRole::of(value)
    }
}

/// The owner of a book as a response shows one.
#[derive(Debug)]
pub struct BookOwner {
    pub id: UserId,
    pub name: String,
}

impl BookOwner {
    /// What a response shows of an owner: id and name.
    pub open spec fn of(value: crate::kernel::model::user::BookOwner) -> BookOwner {
        BookOwner { id: value.id, name: value.name }
    }
}

impl From<crate::kernel::model::user::BookOwner> for BookOwner {
    fn from(value: crate::kernel::model::user::BookOwner) -> (owner: Self)
        ensures
            owner == BookOwner::of(value),
    {
        let crate::kernel::model::user::BookOwner { id, name } = value;
        BookOwner { id, name }
    }
}

impl vstd::std_specs::convert::FromSpecImpl<crate::kernel::model::user::BookOwner> for BookOwner {
    open spec fn obeys_from_spec() -> bool {
        true
    }

    open spec fn from_spec(value: crate::kernel::model::user::BookOwner) -> Self {
        BookOwner::of(value)
    }
}

/// The borrower of a book as a response shows one.
#[derive(Debug)]
pub struct CheckoutUser {
    pub id: UserId,
    pub name: String,
}

impl CheckoutUser {
    /// What a response shows of a borrower: id and name.
    pub open spec fn of(value: crate::kernel::model::user::CheckoutUser) -> CheckoutUser {
        CheckoutUser { id: value.id, name: value.name }
    }
}

impl From<crate::kernel::model::user::CheckoutUser> for CheckoutUser {
    fn from(value: crate::kernel::model::user::CheckoutUser) -> (borrower: Self)
        ensures
            borrower == CheckoutUser::of(value),
    {
        let crate::kernel::model::user::CheckoutUser { id, name } = value;
        CheckoutUser { id, name }
    }
}

impl vstd::std_specs::convert::FromSpecImpl<crate::kernel::model::user::CheckoutUser> for CheckoutUser {
    open spec fn obeys_from_spec() -> bool {
        true
    }

    open spec fn from_spec(value: crate::kernel::model::user::CheckoutUser) -> Self {
        CheckoutUser::of(value)
    }
}

} // verus!
