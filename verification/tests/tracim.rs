use rolling::spritesheets::{build_report, unreadable_input, ImageOutcome};
use rolling::tracim::account::Account;
use rolling::tracim::client::{read_session_key, CookieHeader, Error};
use rolling::tracim::config::Config;
use rolling::tracim::dealer::{find_account, find_space, role_step, RoleStep};
use rolling::tracim::remote::{Space, SpaceMember, UserDigest};
use rolling::tracim::request::{self, Credentials, Method, Value};
use rolling::tracim::types::{
    AccountId, ApiAddress, ApiKey, ContentNamespace, ContentType, Email, Password, RoleInSpace,
    SessionKey, SpaceAccessType, SpaceId, SpaceName, Username,
};

#[test]
fn names_of_roles() {
    let roles = [
        (RoleInSpace::Reader, "reader"),
        (RoleInSpace::Contributor, "contributor"),
        (RoleInSpace::ContentManager, "content-manager"),
        (RoleInSpace::WorkspaceManager, "workspace-manager"),
    ];
    for (role, name) in roles.iter() {
        assert_eq!(*name, role.as_str());
        assert_eq!(Some(*role), RoleInSpace::from_str(name));
        assert_eq!(Some(*role), RoleInSpace::from_str(role.as_str()));
    }
    assert_eq!(None, RoleInSpace::from_str("Reader"));
    assert_eq!(None, RoleInSpace::from_str(""));
    assert_eq!(None, RoleInSpace::from_str("content_manager"));
}

#[test]
fn names_of_access_types() {
    let kinds = [
        (SpaceAccessType::Confidential, "confidential"),
        (SpaceAccessType::OnRequest, "on_request"),
        (SpaceAccessType::Open, "open"),
    ];
    for (kind, name) in kinds.iter() {
        assert_eq!(*name, kind.as_str());
        assert_eq!(Some(*kind), SpaceAccessType::from_str(name));
    }
    assert_eq!(None, SpaceAccessType::from_str("on-request"));
}

#[test]
fn names_of_content_types() {
    let kinds = [
        (ContentType::Thread, "thread"),
        (ContentType::File, "file"),
        (ContentType::Note, "html-document"),
        (ContentType::Folder, "folder"),
        (ContentType::Kanban, "kanban"),
        (ContentType::Todo, "todo"),
        (ContentType::Comment, "comment"),
    ];
    for (kind, name) in kinds.iter() {
        assert_eq!(*name, kind.as_str());
        assert_eq!(Some(*kind), ContentType::from_str(name));
    }
    assert_eq!(None, ContentType::from_str("note"));
    assert_eq!(Some(ContentNamespace::Content), ContentNamespace::from_str("content"));
    assert_eq!(Some(ContentNamespace::Publication), ContentNamespace::from_str("publication"));
    assert_eq!(None, ContentNamespace::from_str("comment"));
    assert_eq!("content", ContentNamespace::Content.as_str());
    assert_eq!("publication", ContentNamespace::Publication.as_str());
}

#[test]
fn values_keep_what_they_are_made_of() {
    assert_eq!(7, AccountId::new(7).0);
    assert_eq!(-3, SpaceId::new(-3).0);
    assert_eq!("space", SpaceName::new(String::from("space")).0);
    assert_eq!("a@b.c", Email::new(String::from("a@b.c")).0);
    assert_eq!("bob", Username::new(String::from("bob")).0);
    assert_eq!("pass", Password::new(String::from("pass")).0);
    assert_eq!("key", ApiKey::new(String::from("key")).0);
    assert_eq!("http://x", ApiAddress::new(String::from("http://x")).0);
    assert_eq!("abc", SessionKey::new(String::from("abc")).0);
    let account = Account::new(
        Username::new(String::from("bob")),
        Password::new(String::from("pass")),
        Email::new(String::from("a@b.c")),
    );
    assert_eq!("bob", account.username.0);
    assert_eq!("pass", account.password.0);
    assert_eq!("a@b.c", account.email.0);
}

#[test]
fn address_loses_its_last_slashes() {
    let config = |address: &str| {
        Config::new(
            ApiKey::new(String::from("key")),
            ApiAddress::new(String::from(address)),
            Email::new(String::from("admin@b.c")),
        )
    };
    assert_eq!("http://host/api", config("http://host/api/").api_address.0);
    assert_eq!("http://host/api", config("http://host/api///").api_address.0);
    assert_eq!("http://host/api", config("http://host/api").api_address.0);
    assert_eq!("", config("//").api_address.0);
    assert_eq!("", config("").api_address.0);
    assert_eq!("key", config("x").api_key.0);
    assert_eq!("admin@b.c", config("x").admin_email.0);
}

#[test]
fn account_is_found_by_its_name() {
    let digests = vec![
        UserDigest { user_id: 1, username: String::from("ann") },
        UserDigest { user_id: 2, username: String::from("bob") },
        UserDigest { user_id: 3, username: String::from("bob") },
    ];
    assert_eq!(Some(1), find_account(&digests, "ann"));
    assert_eq!(Some(2), find_account(&digests, "bob"));
    assert_eq!(None, find_account(&digests, "Bob"));
    assert_eq!(None, find_account(&vec![], "ann"));
}

#[test]
fn space_is_found_by_its_label() {
    let spaces = vec![
        Space { workspace_id: 10, label: String::from("north") },
        Space { workspace_id: 20, label: String::from("south") },
    ];
    assert_eq!(Some(20), find_space(&spaces, "south"));
    assert_eq!(Some(10), find_space(&spaces, "north"));
    assert_eq!(None, find_space(&spaces, "east"));
}

#[test]
fn role_is_kept_updated_or_created() {
    let members = vec![
        SpaceMember { workspace_id: 1, user_id: 5, role: String::from("reader") },
        SpaceMember { workspace_id: 1, user_id: 6, role: String::from("contributor") },
        SpaceMember { workspace_id: 1, user_id: 6, role: String::from("reader") },
    ];
    assert_eq!(RoleStep::Keep, role_step(&members, 5, RoleInSpace::Reader));
    assert_eq!(RoleStep::Update, role_step(&members, 5, RoleInSpace::Contributor));
    assert_eq!(RoleStep::Keep, role_step(&members, 6, RoleInSpace::Contributor));
    assert_eq!(RoleStep::Update, role_step(&members, 6, RoleInSpace::Reader));
    assert_eq!(RoleStep::Create, role_step(&members, 7, RoleInSpace::Reader));
    assert_eq!(RoleStep::Create, role_step(&vec![], 5, RoleInSpace::Reader));
}

fn key_of(cookie: &str) -> Result<String, String> {
    match read_session_key(&CookieHeader::Text(String::from(cookie))) {
        Ok(key) => Ok(key.0),
        Err(Error::StructureError(message)) => Err(message),
        Err(other) => panic!("{:?}", other),
    }
}

#[test]
fn session_key_is_read_from_the_cookie() {
    assert_eq!(Ok(String::from("abc")), key_of("session_key=abc; Path=/; HttpOnly"));
    assert_eq!(Ok(String::from("abc")), key_of("lang=fr; session_key=abc"));
    assert_eq!(Ok(String::from("")), key_of("session_key=;"));
    assert_eq!(Ok(String::from("")), key_of("session_key="));
    assert_eq!(Ok(String::from("a")), key_of("session_key=asession_key=b;"));
    assert_eq!(Ok(String::from("a b")), key_of("xsession_key=a b;session_key=c"));
    for cookie in ["a=b; session_key=k1; c=d", "session_key=k;session_key=l", "session_key=k"] {
        let pieces: Vec<&str> = cookie.split("session_key=").collect();
        let expected = pieces[1].split(";").next().unwrap();
        assert_eq!(Ok(String::from(expected)), key_of(cookie));
    }
}

#[test]
fn login_without_session_key_fails() {
    assert_eq!(
        Err(String::from("Can't read Set-Cookie header value session_key= part")),
        key_of("lang=fr; Path=/")
    );
    assert_eq!(
        Err(String::from("Can't read Set-Cookie header value session_key= part")),
        key_of("session_key")
    );
    match read_session_key(&CookieHeader::Missing) {
        Err(Error::StructureError(message)) => {
            assert_eq!("Auth login response don't contains Set-Cookie header", message)
        }
        other => panic!("{:?}", other),
    }
    match read_session_key(&CookieHeader::Unreadable) {
        Err(Error::StructureError(message)) => {
            assert_eq!("Can't read Set-Cookie header value as str", message)
        }
        other => panic!("{:?}", other),
    }
}

#[test]
fn request_errors_are_told_apart() {
    assert!(matches!(
        Error::of_request(true, false, String::from("refused")),
        Error::NetWorkError(m) if m == "refused"
    ));
    assert!(matches!(
        Error::of_request(false, true, String::from("late")),
        Error::NetWorkError(m) if m == "late"
    ));
    assert!(matches!(
        Error::of_request(false, false, String::from("404")),
        Error::UnexpectedError(m) if m == "404"
    ));
    assert_eq!(
        "Network error : refused",
        Error::NetWorkError(String::from("refused")).describe()
    );
    assert_eq!(
        "Unexpected error : 404",
        Error::UnexpectedError(String::from("404")).describe()
    );
    assert_eq!(
        "Structure error : no json",
        Error::StructureError(String::from("no json")).describe()
    );
}

#[test]
fn build_reports_layer_errors() {
    let errors = vec![String::from("hat"), String::from("cape")];
    assert_eq!(Ok(errors.clone()), build_report(errors.clone(), &ImageOutcome::Saved));
    assert_eq!(
        Err(String::from("Failed to save output image : disk full (layer errors : 'hat', 'cape')")),
        build_report(errors.clone(), &ImageOutcome::NotSaved(String::from("disk full")))
    );
    assert_eq!(
        Err(String::from("No image generated (layer errors : 'hat', 'cape')")),
        build_report(errors, &ImageOutcome::NoImage)
    );
    assert_eq!(
        Err(String::from("No image generated (layer errors : '')")),
        build_report(vec![], &ImageOutcome::NoImage)
    );
    assert_eq!(
        Err(String::from("No image generated (layer errors : 'one')")),
        build_report(vec![String::from("one")], &ImageOutcome::NoImage)
    );
    assert_eq!("Can't parse given input : No readable input given", unreadable_input("No readable input given"));
}

fn a_config() -> Config {
    Config::new(
        ApiKey::new(String::from("key")),
        ApiAddress::new(String::from("http://host/api/v2/")),
        Email::new(String::from("admin@b.c")),
    )
}

fn an_account() -> Account {
    Account::new(
        Username::new(String::from("bob")),
        Password::new(String::from("pass")),
        Email::new(String::from("bob@b.c")),
    )
}

fn text(key: &str, value: &str) -> (String, Value) {
    (String::from(key), Value::Text(String::from(value)))
}

#[test]
fn requests_that_only_ask() {
    let config = a_config();
    let users = request::get_user_digests(&config);
    assert_eq!(Method::Get, users.method);
    assert_eq!("http://host/api/v2/users", users.url);
    assert_eq!(Credentials::ApiKey, users.credentials);
    assert!(users.data.is_empty());

    let spaces = request::get_spaces(&config);
    assert_eq!(Method::Get, spaces.method);
    assert_eq!("http://host/api/v2/workspaces", spaces.url);
    assert_eq!(Credentials::ApiKey, spaces.credentials);
    assert!(spaces.data.is_empty());

    let members = request::space_members(&config, SpaceId::new(12));
    assert_eq!(Method::Get, members.method);
    assert_eq!("http://host/api/v2/workspaces/12/members", members.url);
    assert_eq!(Credentials::ApiKey, members.credentials);
    assert!(members.data.is_empty());
}

#[test]
fn requests_about_users() {
    let config = a_config();
    let account = an_account();
    let create = request::create_user(&config, &account);
    assert_eq!(Method::Post, create.method);
    assert_eq!("http://host/api/v2/users", create.url);
    assert_eq!(Credentials::ApiKey, create.credentials);
    assert_eq!(
        vec![
            text("email", "bob@b.c"),
            text("username", "bob"),
            text("public_name", "bob"),
            text("password", "pass"),
            (String::from("email_notification"), Value::Flag(false)),
            text("profile", "trusted-users"),
        ],
        create.data
    );

    let password = request::update_user_password(
        &config,
        &account,
        AccountId::new(7),
        &Password::new(String::from("new")),
    );
    assert_eq!(Method::Put, password.method);
    assert_eq!("http://host/api/v2/users/7/password", password.url);
    assert_eq!(Credentials::ApiKey, password.credentials);
    assert_eq!(
        vec![
            text("loggedin_user_password", "pass"),
            text("new_password", "new"),
            text("new_password2", "new"),
        ],
        password.data
    );

    let email = request::update_user_email(
        &config,
        &account,
        AccountId::new(-7),
        &Email::new(String::from("new@b.c")),
    );
    assert_eq!(Method::Put, email.method);
    assert_eq!("http://host/api/v2/users/-7/email", email.url);
    assert_eq!(Credentials::Account, email.credentials);
    assert_eq!(
        vec![text("loggedin_user_password", "pass"), text("email", "new@b.c")],
        email.data
    );

    let login = request::get_session_key(&config, &account);
    assert_eq!(Method::Post, login.method);
    assert_eq!("http://host/api/v2/auth/login", login.url);
    assert_eq!(Credentials::Anonymous, login.credentials);
    assert_eq!(vec![text("username", "bob"), text("password", "pass")], login.data);
}

#[test]
fn requests_about_spaces() {
    let config = a_config();
    let create = request::create_space(
        &config,
        &SpaceName::new(String::from("north")),
        SpaceAccessType::Confidential,
        "",
    );
    assert_eq!(Method::Post, create.method);
    assert_eq!("http://host/api/v2/workspaces", create.url);
    assert_eq!(
        vec![
            text("access_type", "confidential"),
            (String::from("agenda_enabled"), Value::Flag(false)),
            text("default_user_role", "reader"),
            text("description", ""),
            text("label", "north"),
        ],
        create.data
    );

    let update = request::update_space_member(
        &config,
        SpaceId::new(3),
        AccountId::new(2147483647),
        RoleInSpace::ContentManager,
    );
    assert_eq!(Method::Put, update.method);
    assert_eq!("http://host/api/v2/workspaces/3/members/2147483647", update.url);
    assert_eq!(vec![text("role", "content-manager")], update.data);

    let join = request::create_space_member(
        &config,
        SpaceId::new(-2147483648),
        AccountId::new(0),
        RoleInSpace::Reader,
    );
    assert_eq!(Method::Post, join.method);
    assert_eq!("http://host/api/v2/workspaces/-2147483648/members", join.url);
    assert_eq!(
        vec![text("role", "reader"), (String::from("user_id"), Value::Number(0))],
        join.data
    );

    let publication = request::create_publication(&config, SpaceId::new(3), "news");
    assert_eq!(Method::Post, publication.method);
    assert_eq!("http://host/api/v2/workspaces/3/contents", publication.url);
    assert_eq!(
        vec![
            text("content_namespace", "publication"),
            text("content_type", "thread"),
            text("label", "news"),
        ],
        publication.data
    );

    let comment = request::create_publication_comment(&config, SpaceId::new(3), 45, "hello");
    assert_eq!(Method::Post, comment.method);
    assert_eq!("http://host/api/v2/workspaces/3/contents/45/comments", comment.url);
    assert_eq!(Credentials::ApiKey, comment.credentials);
    assert_eq!(
        vec![text("content_namespace", "publication"), text("raw_content", "hello")],
        comment.data
    );
}
