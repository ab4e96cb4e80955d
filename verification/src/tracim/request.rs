//! The requests of the interface: for each thing asked of the server, the
//! address, the method, who signs, and the fields that the request carries.
//! Sending them is the caller's.

use super::account::Account;
use super::config::Config;
use super::types::{
    AccountId, ContentNamespace, ContentType, Email, Password, RoleInSpace, SpaceAccessType,
    SpaceId, SpaceName,
};
use crate::text::{push_signed, push_text, signed_decimal, string_of};
use vstd::prelude::*;
use vstd::string::StringExecFns;

verus! {

/// The method of a request.
#[derive(Clone, Copy, Debug, PartialEq, Eq, Structural)]
pub enum Method {
    Get,
    Post,
    Put,
}

/// Who signs a request.
#[derive(Clone, Copy, Debug, PartialEq, Eq, Structural)]
pub enum Credentials {
    /// The administrator, by the key of the interface.
    ApiKey,
    /// The account that the request is about, by its name and password.
    Account,
    /// Nobody.
    Anonymous,
}

/// The value of a field of a request.
#[derive(Clone, Debug, PartialEq)]
pub enum Value {
    Text(String),
    Flag(bool),
    Number(i32),
}

/// The value of a field, as plain values.
pub enum ValueView {
    Text(Seq<char>),
    Flag(bool),
    Number(i32),
}

impl View for Value {
    type V = ValueView;

    open spec fn view(&self) -> ValueView {
        match *self {
            Value::Text(text) => ValueView::Text(text@),
            Value::Flag(flag) => ValueView::Flag(flag),
            Value::Number(number) => ValueView::Number(number),
        }
    }
}

/// A request, ready to be sent.
#[derive(Debug)]
pub struct Request {
    pub method: Method,
    pub url: String,
    pub credentials: Credentials,
    /// The fields of the request, in order; none for a request without body.
    pub data: Vec<(String, Value)>,
}

/// What a request is, as plain values.
pub struct RequestView {
    pub method: Method,
    pub url: Seq<char>,
    pub credentials: Credentials,
    pub data: Seq<(Seq<char>, ValueView)>,
}

impl View for Request {
    type V = RequestView;

    open spec fn view(&self) -> RequestView {
        RequestView {
            method: self.method,
            url: self.url@,
            credentials: self.credentials,
            data: self.data@.map_values(|field: (String, Value)| (field.0@, field.1@)),
        }
    }
}

/// The field `key` with the text `value`.
pub open spec fn text(key: Seq<char>, value: Seq<char>) -> (Seq<char>, ValueView) {
    (key, ValueView::Text(value))
}

/// The field `key` with the flag `value`.
pub open spec fn flag(key: Seq<char>, value: bool) -> (Seq<char>, ValueView) {
    (key, ValueView::Flag(value))
}

/// The field `key` with the number `value`.
pub open spec fn number(key: Seq<char>, value: i32) -> (Seq<char>, ValueView) {
    (key, ValueView::Number(value))
}

/// The address of the users.
pub open spec fn users_url(address: Seq<char>) -> Seq<char> {
    address + "/users"@
}

/// The address of what `what` names of the user `id`.
pub open spec fn user_url(address: Seq<char>, id: i32, what: Seq<char>) -> Seq<char> {
    address + "/users/"@ + signed_decimal(id as int) + "/"@ + what
}

/// The address of the spaces.
pub open spec fn spaces_url(address: Seq<char>) -> Seq<char> {
    address + "/workspaces"@
}

/// The address of what `what` names of the space `id`.
pub open spec fn space_url(address: Seq<char>, id: i32, what: Seq<char>) -> Seq<char> {
    address + "/workspaces/"@ + signed_decimal(id as int) + "/"@ + what
}

/// The address of the membership of the user `account` in the space `id`.
pub open spec fn member_url(address: Seq<char>, id: i32, account: i32) -> Seq<char> {
    space_url(address, id, "members"@) + "/"@ + signed_decimal(account as int)
}

/// The address of the comments of the content `content` of the space `id`.
pub open spec fn comments_url(address: Seq<char>, id: i32, content: i32) -> Seq<char> {
    space_url(address, id, "contents"@) + "/"@ + signed_decimal(content as int) + "/comments"@
}

/// The address of the login.
pub open spec fn login_url(address: Seq<char>) -> Seq<char> {
    address + "/auth/login"@
}

/// The field `key` with the text `value`.
fn text_field(key: &str, value: &str) -> (field: (String, Value))
    ensures
        (field.0@, field.1@) == text(key@, value@),
{
    (String::from_str(key), Value::Text(String::from_str(value)))
}

/// The field `key` with the flag `value`.
fn flag_field(key: &str, value: bool) -> (field: (String, Value))
    ensures
        (field.0@, field.1@) == flag(key@, value),
{
    (String::from_str(key), Value::Flag(value))
}

/// The field `key` with the number `value`.
fn number_field(key: &str, value: i32) -> (field: (String, Value))
    ensures
        (field.0@, field.1@) == number(key@, value),
{
    (String::from_str(key), Value::Number(value))
}

/// The address `address`, then `path`.
fn url_of(address: &str, path: &str) -> (url: String)
    ensures
        url@ == address@ + path@,
{
    let mut url = String::from_str(address);
    url.append(path);
    url
}

/// The address of what `what` names of the item `id` of `items`.
fn item_url(address: &str, items: &str, id: i32, what: &str) -> (url: Vec<char>)
    ensures
        url@ == address@ + items@ + signed_decimal(id as int) + "/"@ + what@,
{
    let mut url: Vec<char> = Vec::new();
    push_text(address, &mut url);
    push_text(items, &mut url);
    push_signed(id, &mut url);
    push_text("/", &mut url);
    push_text(what, &mut url);
    assert(url@ =~= address@ + items@ + signed_decimal(id as int) + "/"@ + what@);
    url
}

/// Asks for the users.
pub fn get_user_digests(config: &Config) -> (request: Request)
    ensures
        request@ == (RequestView {
            method: Method::Get,
            url: users_url(config.api_address.0@),
            credentials: Credentials::ApiKey,
            data: Seq::empty(),
        }),
{
    let request = Request {
        method: Method::Get,
        url: url_of(config.api_address.0.as_str(), "/users"),
        credentials: Credentials::ApiKey,
        data: Vec::new(),
    };
    assert(request@.data =~= Seq::empty());
    request
}

/// Asks for the spaces.
pub fn get_spaces(config: &Config) -> (request: Request)
    ensures
        request@ == (RequestView {
            method: Method::Get,
            url: spaces_url(config.api_address.0@),
            credentials: Credentials::ApiKey,
            data: Seq::empty(),
        }),
{
    let request = Request {
        method: Method::Get,
        url: url_of(config.api_address.0.as_str(), "/workspaces"),
        credentials: Credentials::ApiKey,
        data: Vec::new(),
    };
    assert(request@.data =~= Seq::empty());
    request
}

/// Asks to create the user of `account`: a trusted user, known by its name,
/// who is sent no notification.
pub fn create_user(config: &Config, account: &Account) -> (request: Request)
    ensures
        request@ == (RequestView {
            method: Method::Post,
            url: users_url(config.api_address.0@),
            credentials: Credentials::ApiKey,
            data: seq![
                text("email"@, account.email.0@),
                text("username"@, account.username.0@),
                text("public_name"@, account.username.0@),
                text("password"@, account.password.0@),
                flag("email_notification"@, false),
                text("profile"@, "trusted-users"@),
            ],
        }),
{
    let mut data: Vec<(String, Value)> = Vec::new();
    data.push(text_field("email", account.email.0.as_str()));
    data.push(text_field("username", account.username.0.as_str()));
    data.push(text_field("public_name", account.username.0.as_str()));
    data.push(text_field("password", account.password.0.as_str()));
    data.push(flag_field("email_notification", false));
    data.push(text_field("profile", "trusted-users"));
    let request = Request {
        method: Method::Post,
        url: url_of(config.api_address.0.as_str(), "/users"),
        credentials: Credentials::ApiKey,
        data,
    };
    assert(request@.data =~= seq![
        text("email"@, account.email.0@),
        text("username"@, account.username.0@),
        text("public_name"@, account.username.0@),
        text("password"@, account.password.0@),
        flag("email_notification"@, false),
        text("profile"@, "trusted-users"@),
    ]);
    request
}

/// Asks to change the password of the user `account_id` to `new_password`,
/// given the password that `account` has now.
pub fn update_user_password(
    config: &Config,
    account: &Account,
    account_id: AccountId,
    new_password: &Password,
) -> (request: Request)
    ensures
        request@ == (RequestView {
            method: Method::Put,
            url: user_url(config.api_address.0@, account_id.0, "password"@),
            credentials: Credentials::ApiKey,
            data: seq![
                text("loggedin_user_password"@, account.password.0@),
                text("new_password"@, new_password.0@),
                text("new_password2"@, new_password.0@),
            ],
        }),
{
    let mut data: Vec<(String, Value)> = Vec::new();
    data.push(text_field("loggedin_user_password", account.password.0.as_str()));
    data.push(text_field("new_password", new_password.0.as_str()));
    data.push(text_field("new_password2", new_password.0.as_str()));
    let url = item_url(config.api_address.0.as_str(), "/users/", account_id.0, "password");
    let request = Request {
        method: Method::Put,
        url: string_of(&url),
        credentials: Credentials::ApiKey,
        data,
    };
    assert(request@.data =~= seq![
        text("loggedin_user_password"@, account.password.0@),
        text("new_password"@, new_password.0@),
        text("new_password2"@, new_password.0@),
    ]);
    request
}

/// Asks to change the e-mail address of the user `account_id` to
/// `new_email`, in the name of the account itself.
pub fn update_user_email(
    config: &Config,
    account: &Account,
    account_id: AccountId,
    new_email: &Email,
) -> (request: Request)
    ensures
        request@ == (RequestView {
            method: Method::Put,
            url: user_url(config.api_address.0@, account_id.0, "email"@),
            credentials: Credentials::Account,
            data: seq![
                text("loggedin_user_password"@, account.password.0@),
                text("email"@, new_email.0@),
            ],
        }),
{
    let mut data: Vec<(String, Value)> = Vec::new();
    data.push(text_field("loggedin_user_password", account.password.0.as_str()));
    data.push(text_field("email", new_email.0.as_str()));
    let url = item_url(config.api_address.0.as_str(), "/users/", account_id.0, "email");
    let request = Request {
        method: Method::Put,
        url: string_of(&url),
        credentials: Credentials::Account,
        data,
    };
    assert(request@.data =~= seq![
        text("loggedin_user_password"@, account.password.0@),
        text("email"@, new_email.0@),
    ]);
    request
}

/// Asks to create the space `name`, without agenda, that new members enter
/// as readers.
pub fn create_space(
    config: &Config,
    name: &SpaceName,
    access_type: SpaceAccessType,
    description: &str,
) -> (request: Request)
    ensures
        request@ == (RequestView {
            method: Method::Post,
            url: spaces_url(config.api_address.0@),
            credentials: Credentials::ApiKey,
            data: seq![
                text("access_type"@, access_type.name()),
                flag("agenda_enabled"@, false),
                text("default_user_role"@, RoleInSpace::Reader.name()),
                text("description"@, description@),
                text("label"@, name.0@),
            ],
        }),
{
    let mut data: Vec<(String, Value)> = Vec::new();
    data.push(text_field("access_type", access_type.as_str()));
    data.push(flag_field("agenda_enabled", false));
    data.push(text_field("default_user_role", RoleInSpace::Reader.as_str()));
    data.push(text_field("description", description));
    data.push(text_field("label", name.0.as_str()));
    let request = Request {
        method: Method::Post,
        url: url_of(config.api_address.0.as_str(), "/workspaces"),
        credentials: Credentials::ApiKey,
        data,
    };
    assert(request@.data =~= seq![
        text("access_type"@, access_type.name()),
        flag("agenda_enabled"@, false),
        text("default_user_role"@, RoleInSpace::Reader.name()),
        text("description"@, description@),
        text("label"@, name.0@),
    ]);
    request
}

/// Asks for the members of the space `space_id`.
pub fn space_members(config: &Config, space_id: SpaceId) -> (request: Request)
    ensures
        request@ == (RequestView {
            method: Method::Get,
            url: space_url(config.api_address.0@, space_id.0, "members"@),
            credentials: Credentials::ApiKey,
            data: Seq::empty(),
        }),
{
    let url = item_url(config.api_address.0.as_str(), "/workspaces/", space_id.0, "members");
    let request = Request {
        method: Method::Get,
        url: string_of(&url),
        credentials: Credentials::ApiKey,
        data: Vec::new(),
    };
    assert(request@.data =~= Seq::empty());
    request
}

/// Asks to change the role of the user `account_id` in the space `space_id`
/// to `role`.
pub fn update_space_member(
    config: &Config,
    space_id: SpaceId,
    account_id: AccountId,
    role: RoleInSpace,
) -> (request: Request)
    ensures
        request@ == (RequestView {
            method: Method::Put,
            url: member_url(config.api_address.0@, space_id.0, account_id.0),
            credentials: Credentials::ApiKey,
            data: seq![text("role"@, role.name())],
        }),
{
    let mut url = item_url(config.api_address.0.as_str(), "/workspaces/", space_id.0, "members");
    push_text("/", &mut url);
    push_signed(account_id.0, &mut url);
    let mut data: Vec<(String, Value)> = Vec::new();
    data.push(text_field("role", role.as_str()));
    let request = Request {
        method: Method::Put,
        url: string_of(&url),
        credentials: Credentials::ApiKey,
        data,
    };
    assert(request@.data =~= seq![text("role"@, role.name())]);
    request
}

/// Asks to make the user `account_id` a member of the space `space_id`, with
/// the role `role`.
pub fn create_space_member(
    config: &Config,
    space_id: SpaceId,
    account_id: AccountId,
    role: RoleInSpace,
) -> (request: Request)
    ensures
        request@ == (RequestView {
            method: Method::Post,
            url: space_url(config.api_address.0@, space_id.0, "members"@),
            credentials: Credentials::ApiKey,
            data: seq![text("role"@, role.name()), number("user_id"@, account_id.0)],
        }),
{
    let url = item_url(config.api_address.0.as_str(), "/workspaces/", space_id.0, "members");
    let mut data: Vec<(String, Value)> = Vec::new();
    data.push(text_field("role", role.as_str()));
    data.push(number_field("user_id", account_id.0));
    let request = Request {
        method: Method::Post,
        url: string_of(&url),
        credentials: Credentials::ApiKey,
        data,
    };
    assert(request@.data =~= seq![text("role"@, role.name()), number("user_id"@, account_id.0)]);
    request
}

/// Asks to log `account` in.
pub fn get_session_key(config: &Config, account: &Account) -> (request: Request)
    ensures
        request@ == (RequestView {
            method: Method::Post,
            url: login_url(config.api_address.0@),
            credentials: Credentials::Anonymous,
            data: seq![
                text("username"@, account.username.0@),
                text("password"@, account.password.0@),
            ],
        }),
{
    let mut data: Vec<(String, Value)> = Vec::new();
    data.push(text_field("username", account.username.0.as_str()));
    data.push(text_field("password", account.password.0.as_str()));
    let request = Request {
        method: Method::Post,
        url: url_of(config.api_address.0.as_str(), "/auth/login"),
        credentials: Credentials::Anonymous,
        data,
    };
    assert(request@.data =~= seq![
        text("username"@, account.username.0@),
        text("password"@, account.password.0@),
    ]);
    request
}

/// Asks to create the thread of a publication titled `title` in the space
/// `space_id`.
pub fn create_publication(config: &Config, space_id: SpaceId, title: &str) -> (request: Request)
    ensures
        request@ == (RequestView {
            method: Method::Post,
            url: space_url(config.api_address.0@, space_id.0, "contents"@),
            credentials: Credentials::ApiKey,
            data: seq![
                text("content_namespace"@, ContentNamespace::Publication.name()),
                text("content_type"@, ContentType::Thread.name()),
                text("label"@, title@),
            ],
        }),
{
    let url = item_url(config.api_address.0.as_str(), "/workspaces/", space_id.0, "contents");
    let mut data: Vec<(String, Value)> = Vec::new();
    data.push(text_field("content_namespace", ContentNamespace::Publication.as_str()));
    data.push(text_field("content_type", ContentType::Thread.as_str()));
    data.push(text_field("label", title));
    let request = Request {
        method: Method::Post,
        url: string_of(&url),
        credentials: Credentials::ApiKey,
        data,
    };
    assert(request@.data =~= seq![
        text("content_namespace"@, ContentNamespace::Publication.name()),
        text("content_type"@, ContentType::Thread.name()),
        text("label"@, title@),
    ]);
    request
}

/// Asks to add `message` as the first comment of the publication
/// `content_id` of the space `space_id`.
pub fn create_publication_comment(
    config: &Config,
    space_id: SpaceId,
    content_id: i32,
    message: &str,
) -> (request: Request)
    ensures
        request@ == (RequestView {
            method: Method::Post,
            url: comments_url(config.api_address.0@, space_id.0, content_id),
            credentials: Credentials::ApiKey,
            data: seq![
                text("content_namespace"@, ContentNamespace::Publication.name()),
                text("raw_content"@, message@),
            ],
        }),
{
    let mut url = item_url(config.api_address.0.as_str(), "/workspaces/", space_id.0, "contents");
    push_text("/", &mut url);
    push_signed(content_id, &mut url);
    push_text("/comments", &mut url);
    let mut data: Vec<(String, Value)> = Vec::new();
    data.push(text_field("content_namespace", ContentNamespace::Publication.as_str()));
    data.push(text_field("raw_content", message));
    let request = Request {
        method: Method::Post,
        url: string_of(&url),
        credentials: Credentials::ApiKey,
        data,
    };
    assert(request@.data =~= seq![
        text("content_namespace"@, ContentNamespace::Publication.name()),
        text("raw_content"@, message@),
    ]);
    request
}

} // verus!
