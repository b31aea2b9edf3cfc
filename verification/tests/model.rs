use book_manager::api::model::auth::{AccessTokenResponse, LoginRequest};
use book_manager::api::model::checkout::{
    CheckoutBookResponse, CheckoutResponse, CheckoutsResponse,
};
use book_manager::api::model::user::{
    BookOwner, CheckoutUser, CreateUserRequest, RoleName, UpdateUserPasswordRequest,
    UpdateUserPasswordRequestWithUserId, UpdateUserRoleRequest, UpdateUserRoleRequestWithUserId,
    UserResponse, UsersResponse,
};
use book_manager::kernel::model::checkout::{Checkout, CheckoutBook};
use book_manager::kernel::model::id::{BookId, CheckoutId, UserId};
use book_manager::kernel::model::role::Role;
use book_manager::kernel::model::user::event::{CreateUser, UpdateUserPassword, UpdateUserRole};
use book_manager::kernel::model::user::User;

fn at(day: u32, hour: u32) -> chrono::NaiveDateTime {
    chrono::NaiveDate::from_ymd_opt(2024, 1, day).unwrap().and_hms_opt(hour, 30, 0).unwrap()
}

fn checkout(n: u128, returned_at: Option<chrono::NaiveDateTime>) -> Checkout {
    Checkout {
        id: CheckoutId(n),
        checked_out_by: book_manager::kernel::model::user::CheckoutUser {
            id: UserId(n + 100),
            name: format!("user {n}"),
        },
        checked_out_at: at(15, 10),
        returned_at,
        book: CheckoutBook {
            book_id: BookId(n + 200),
            title: format!("title {n}"),
            author: format!("author {n}"),
            isbn: format!("isbn {n}"),
        },
    }
}

#[test]
fn a_role_becomes_the_name_of_the_same_role() {
    assert_eq!(RoleName::from(Role::Admin), RoleName::Admin);
    assert_eq!(RoleName::from(Role::User), RoleName::User);
}

#[test]
fn a_role_name_becomes_the_role_of_that_name() {
    assert_eq!(Role::from(RoleName::Admin), Role::Admin);
    assert_eq!(Role::from(RoleName::User), Role::User);
}

#[test]
fn role_and_name_round_trip() {
    for role in [Role::Admin, Role::User] {
        assert_eq!(Role::from(RoleName::from(role)), role);
    }
    for name in [RoleName::Admin, RoleName::User] {
        assert_eq!(RoleName::from(Role::from(name)), name);
    }
}

#[test]
fn a_user_response_shows_the_user() {
    let response = UserResponse::from(User {
        id: UserId(5),
        name: "Yamada".to_string(),
        email: "yamada@example.com".to_string(),
        role: Role::Admin,
    });
    assert_eq!(response.id, UserId(5));
    assert_eq!(response.name, "Yamada");
    assert_eq!(response.email, "yamada@example.com");
    assert_eq!(response.role, RoleName::Admin);
}

#[test]
fn a_users_response_holds_its_items() {
    let response = UsersResponse {
        items: vec![UserResponse {
            id: UserId(1),
            name: "a".to_string(),
            email: "a@b.c".to_string(),
            role: RoleName::User,
        }],
    };
    assert_eq!(response.items.len(), 1);
    assert_eq!(response.items[0].name, "a");
}

#[test]
fn a_password_change_keeps_user_and_both_passwords() {
    let paired = UpdateUserPasswordRequestWithUserId::new(
        UserId(9),
        UpdateUserPasswordRequest {
            current_password: "old".to_string(),
            new_password: "new".to_string(),
        },
    );
    let command = UpdateUserPassword::from(paired);
    assert_eq!(command.user_id, UserId(9));
    assert_eq!(command.current_password, "old");
    assert_eq!(command.new_password, "new");
}

#[test]
fn a_registration_keeps_name_email_and_password() {
    let command = CreateUser::from(CreateUserRequest {
        name: "Yamada".to_string(),
        email: "yamada@example.com".to_string(),
        password: "secret".to_string(),
    });
    assert_eq!(command.name, "Yamada");
    assert_eq!(command.email, "yamada@example.com");
    assert_eq!(command.password, "secret");
}

#[test]
fn a_role_change_keeps_user_and_role() {
    let admin = UpdateUserRole::from(UpdateUserRoleRequestWithUserId::new(
        UserId(3),
        UpdateUserRoleRequest { role: RoleName::Admin },
    ));
    assert_eq!(admin.user_id, UserId(3));
    assert_eq!(admin.role, Role::Admin);

    let plain = UpdateUserRole::from(UpdateUserRoleRequestWithUserId::new(
        UserId(4),
        UpdateUserRoleRequest { role: RoleName::User },
    ));
    assert_eq!(plain.user_id, UserId(4));
    assert_eq!(plain.role, Role::User);
}

#[test]
fn a_book_owner_is_shown_with_id_and_name() {
    let owner = BookOwner::from(book_manager::kernel::model::user::BookOwner {
        id: UserId(11),
        name: "Owner".to_string(),
    });
    assert_eq!(owner.id, UserId(11));
    assert_eq!(owner.name, "Owner");
}

#[test]
fn a_checkout_user_is_shown_with_id_and_name() {
    let borrower = CheckoutUser::from(book_manager::kernel::model::user::CheckoutUser {
        id: UserId(12),
        name: "Borrower".to_string(),
    });
    assert_eq!(borrower.id, UserId(12));
    assert_eq!(borrower.name, "Borrower");
}

#[test]
fn a_checkout_book_is_shown_under_the_id_of_the_book() {
    let response = CheckoutBookResponse::from(CheckoutBook {
        book_id: BookId(77),
        title: "The Rust Programming Language".to_string(),
        author: "Steve Klabnik and Carol Nichols".to_string(),
        isbn: "978-1593278281".to_string(),
    });
    assert_eq!(response.id, BookId(77));
    assert_eq!(response.title, "The Rust Programming Language");
    assert_eq!(response.author, "Steve Klabnik and Carol Nichols");
    assert_eq!(response.isbn, "978-1593278281");
}

#[test]
fn an_open_checkout_is_shown_without_return() {
    let response = CheckoutResponse::from(checkout(1, None));
    assert_eq!(response.id, CheckoutId(1));
    assert_eq!(response.checked_out_by.id, UserId(101));
    assert_eq!(response.checked_out_by.name, "user 1");
    assert_eq!(response.checked_out_at, at(15, 10));
    assert_eq!(response.returned_at, None);
    assert_eq!(response.book.id, BookId(201));
    assert_eq!(response.book.title, "title 1");
    assert_eq!(response.book.author, "author 1");
    assert_eq!(response.book.isbn, "isbn 1");
}

#[test]
fn a_closed_checkout_is_shown_with_its_return() {
    let response = CheckoutResponse::from(checkout(2, Some(at(22, 14))));
    assert_eq!(response.checked_out_at, at(15, 10));
    assert_eq!(response.returned_at, Some(at(22, 14)));
}

#[test]
fn a_list_of_checkouts_is_shown_in_its_order() {
    let response = CheckoutsResponse::from(vec![
        checkout(3, None),
        checkout(1, Some(at(20, 9))),
        checkout(2, None),
    ]);
    let ids: Vec<CheckoutId> = response.items.iter().map(|item| item.id).collect();
    assert_eq!(ids, vec![CheckoutId(3), CheckoutId(1), CheckoutId(2)]);
    assert_eq!(response.items[1].returned_at, Some(at(20, 9)));
    assert_eq!(response.items[2].book.title, "title 2");
}

#[test]
fn an_empty_list_of_checkouts_is_shown_empty() {
    assert!(CheckoutsResponse::from(Vec::new()).items.is_empty());
}

#[test]
fn login_bodies_hold_their_fields() {
    let request = LoginRequest {
        email: "test@example.com".to_string(),
        password: "password".to_string(),
    };
    assert_eq!(request.email, "test@example.com");
    assert_eq!(request.password, "password");
    let response = AccessTokenResponse { user_id: UserId(1), access_token: "t".to_string() };
    assert_eq!(response.user_id, UserId(1));
    assert_eq!(response.access_token, "t");
}
