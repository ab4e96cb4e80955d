//! The values of the Tracim interface: identifiers, credentials, and the
//! names that the server has for roles, access types and contents.

use crate::text::same_text;
use vstd::prelude::*;

verus! {

/// The identifier of an account.
#[derive(Clone, Copy, Debug, PartialEq, Eq, Structural)]
pub struct AccountId(pub i32);

impl AccountId {
    pub fn new(id: i32) -> (account_id: Self)
        ensures
            account_id.0 == id,
    {
        Self(id)
    }
}

/// The identifier of a space.
#[derive(Clone, Copy, Debug, PartialEq, Eq, Structural)]
pub struct SpaceId(pub i32);

impl SpaceId {
    pub fn new(id: i32) -> (space_id: Self)
        ensures
            space_id.0 == id,
    {
        Self(id)
    }
}

/// The name of a space.
#[derive(Clone, Debug, PartialEq)]
pub struct SpaceName(pub String);

impl SpaceName {
    pub fn new(name: String) -> (space_name: Self)
        ensures
            space_name.0 == name,
    {
        Self(name)
    }
}

/// An e-mail address.
#[derive(Clone, Debug, PartialEq)]
pub struct Email(pub String);

impl Email {
    pub fn new(email: String) -> (address: Self)
        ensures
            address.0 == email,
    {
        Self(email)
    }
}

/// The name of a user.
#[derive(Clone, Debug, PartialEq)]
pub struct Username(pub String);

impl Username {
    pub fn new(username: String) -> (name: Self)
        ensures
            name.0 == username,
    {
        Self(username)
    }
}

/// A password.
#[derive(Clone, Debug, PartialEq)]
pub struct Password(pub String);

impl Password {
    pub fn new(password: String) -> (secret: Self)
        ensures
            secret.0 == password,
    {
        Self(password)
    }
}

/// The key of the administration interface.
#[derive(Clone, Debug, PartialEq)]
pub struct ApiKey(pub String);

impl ApiKey {
    pub fn new(key: String) -> (api_key: Self)
        ensures
            api_key.0 == key,
    {
        Self(key)
    }
}

/// The address of the interface.
#[derive(Clone, Debug, PartialEq)]
pub struct ApiAddress(pub String);

impl ApiAddress {
    pub fn new(address: String) -> (api_address: Self)
        ensures
            api_address.0 == address,
    {
        Self(address)
    }
}

/// The key of a session.
#[derive(Clone, Debug, PartialEq)]
pub struct SessionKey(pub String);

impl SessionKey {
    pub fn new(key: String) -> (session_key: Self)
        ensures
            session_key.0 == key,
    {
        Self(key)
    }
}

/// The role of a member in a space.
#[derive(Clone, Copy, Debug, PartialEq, Eq, Structural)]
pub enum RoleInSpace {
    Reader,
    Contributor,
    ContentManager,
    WorkspaceManager,
}

impl RoleInSpace {
    /// The name that the server has for the role.
    pub open spec fn name(self) -> Seq<char> {
        match self {
            Self::Reader => "reader"@,
            Self::Contributor => "contributor"@,
            Self::ContentManager => "content-manager"@,
            Self::WorkspaceManager => "workspace-manager"@,
        }
    }

    /// The role that the server names `value`, if it names one so.
    pub open spec fn named(value: Seq<char>) -> Option<Self> {
        if value == "reader"@ {
            Some(Self::Reader)
        } else if value == "contributor"@ {
            Some(Self::Contributor)
        } else if value == "content-manager"@ {
            Some(Self::ContentManager)
        } else if value == "workspace-manager"@ {
            Some(Self::WorkspaceManager)
        } else {
            None
        }
    }

    /// The role that the server names `value`.
    pub fn from_str(value: &str) -> (role: Option<Self>)
        ensures
            role == Self::named(value@),
    {
        if same_text(value, "reader") {
            Some(Self::Reader)
        } else if same_text(value, "contributor") {
            Some(Self::Contributor)
        } else if same_text(value, "content-manager") {
            Some(Self::ContentManager)
        } else if same_text(value, "workspace-manager") {
            Some(Self::WorkspaceManager)
        } else {
            None
        }
    }

    /// The name that the server has for the role.
    pub fn as_str(&self) -> (name: &'static str)
        ensures
            name@ == self.name(),
    {
        match self {
            Self::Reader => "reader",
            Self::Contributor => "contributor",
            Self::ContentManager => "content-manager",
            Self::WorkspaceManager => "workspace-manager",
        }
    }
}

/// Who may enter a space.
#[derive(Clone, Copy, Debug, PartialEq, Eq, Structural)]
pub enum SpaceAccessType {
    Confidential,
    OnRequest,
    Open,
}

impl SpaceAccessType {
    /// The name that the server has for the access type.
    pub open spec fn name(self) -> Seq<char> {
        match self {
            Self::Confidential => "confidential"@,
            Self::OnRequest => "on_request"@,
            Self::Open => "open"@,
        }
    }

    /// The access type that the server names `value`, if it names one so.
    pub open spec fn named(value: Seq<char>) -> Option<Self> {
        if value == "confidential"@ {
            Some(Self::Confidential)
        } else if value == "on_request"@ {
            Some(Self::OnRequest)
        } else if value == "open"@ {
            Some(Self::Open)
        } else {
            None
        }
    }

    /// The access type that the server names `value`.
    pub fn from_str(value: &str) -> (access: Option<Self>)
        ensures
            access == Self::named(value@),
    {
        if same_text(value, "confidential") {
            Some(Self::Confidential)
        } else if same_text(value, "on_request") {
            Some(Self::OnRequest)
        } else if same_text(value, "open") {
            Some(Self::Open)
        } else {
            None
        }
    }

    /// The name that the server has for the access type.
    pub fn as_str(&self) -> (name: &'static str)
        ensures
            name@ == self.name(),
    {
        match self {
            Self::Confidential => "confidential",
            Self::OnRequest => "on_request",
            Self::Open => "open",
        }
    }
}

/// The kind of a content.
#[derive(Clone, Copy, Debug, PartialEq, Eq, Structural)]
pub enum ContentType {
    Thread,
    File,
    Note,
    Folder,
    Kanban,
    Todo,
    Comment,
}

impl ContentType {
    /// The name that the server has for the kind.
    pub open spec fn name(self) -> Seq<char> {
        match self {
            Self::Thread => "thread"@,
            Self::File => "file"@,
            Self::Note => "html-document"@,
            Self::Folder => "folder"@,
            Self::Kanban => "kanban"@,
            Self::Todo => "todo"@,
            Self::Comment => "comment"@,
        }
    }

    /// The kind that the server names `value`, if it names one so.
    pub open spec fn named(value: Seq<char>) -> Option<Self> {
        if value == "thread"@ {
            Some(Self::Thread)
        } else if value == "file"@ {
            Some(Self::File)
        } else if value == "html-document"@ {
            Some(Self::Note)
        } else if value == "folder"@ {
            Some(Self::Folder)
        } else if value == "kanban"@ {
            Some(Self::Kanban)
        } else if value == "todo"@ {
            Some(Self::Todo)
        } else if value == "comment"@ {
            Some(Self::Comment)
        } else {
            None
        }
    }

    /// The kind that the server names `value`.
    pub fn from_str(value: &str) -> (kind: Option<Self>)
        ensures
            kind == Self::named(value@),
    {
        if same_text(value, "thread") {
            Some(Self::Thread)
        } else if same_text(value, "file") {
            Some(Self::File)
        } else if same_text(value, "html-document") {
            Some(Self::Note)
        } else if same_text(value, "folder") {
            Some(Self::Folder)
        } else if same_text(value, "kanban") {
            Some(Self::Kanban)
        } else if same_text(value, "todo") {
            Some(Self::Todo)
        } else if same_text(value, "comment") {
            Some(Self::Comment)
        } else {
            None
        }
    }

    /// The name that the server has for the kind.
    pub fn as_str(&self) -> (name: &'static str)
        ensures
            name@ == self.name(),
    {
        match self {
            Self::Thread => "thread",
            Self::File => "file",
            Self::Note => "html-document",
            Self::Folder => "folder",
            Self::Kanban => "kanban",
            Self::Todo => "todo",
            Self::Comment => "comment",
        }
    }
}

/// Where a content lives.
#[derive(Clone, Copy, Debug, PartialEq, Eq, Structural)]
pub enum ContentNamespace {
    Content,
    Publication,
}

impl ContentNamespace {
    /// The name that the server has for the namespace.
    pub open spec fn name(self) -> Seq<char> {
        match self {
            Self::Content => "content"@,
            Self::Publication => "publication"@,
        }
    }

    /// The namespace that the server names `value`, if it names one so.
    pub open spec fn named(value: Seq<char>) -> Option<Self> {
        if value == "content"@ {
            Some(Self::Content)
        } else if value == "publication"@ {
            Some(Self::Publication)
        } else {
            None
        }
    }

    /// The namespace that the server names `value`.
    pub fn from_str(value: &str) -> (namespace: Option<Self>)
        ensures
            namespace == Self::named(value@),
    {
        if same_text(value, "content") {
            Some(Self::Content)
        } else if same_text(value, "publication") {
            Some(Self::Publication)
        } else {
            None
        }
    }

    /// The name that the server has for the namespace.
    pub fn as_str(&self) -> (name: &'static str)
        ensures
            name@ == self.name(),
    {
        match self {
            Self::Content => "content",
            Self::Publication => "publication",
        }
    }
}

/// A role is read back from its name, and a value that names no role is the
/// name of none.
pub proof fn role_is_read_back_from_its_name(role: RoleInSpace, value: Seq<char>)
    ensures
        RoleInSpace::named(role.name()) == Some(role),
        RoleInSpace::named(value) == Some(role) <==> value == role.name(),
{
    reveal_strlit("reader");
    assert("reader"@.len() == 6);
    reveal_strlit("contributor");
    assert("contributor"@.len() == 11);
    reveal_strlit("content-manager");
    assert("content-manager"@.len() == 15);
    reveal_strlit("workspace-manager");
    assert("workspace-manager"@.len() == 17);
}

/// An access type is read back from its name, and from no other value.
pub proof fn access_type_is_read_back_from_its_name(access: SpaceAccessType, value: Seq<char>)
    ensures
        SpaceAccessType::named(access.name()) == Some(access),
        SpaceAccessType::named(value) == Some(access) <==> value == access.name(),
{
    reveal_strlit("confidential");
    assert("confidential"@.len() == 12);
    reveal_strlit("on_request");
    assert("on_request"@.len() == 10);
    reveal_strlit("open");
    assert("open"@.len() == 4);
}

/// A kind of content is read back from its name, and from no other value.
pub proof fn content_type_is_read_back_from_its_name(kind: ContentType, value: Seq<char>)
    ensures
        ContentType::named(kind.name()) == Some(kind),
        ContentType::named(value) == Some(kind) <==> value == kind.name(),
{
    reveal_strlit("thread");
    assert("thread"@.len() == 6);
    reveal_strlit("file");
    assert("file"@.len() == 4);
    reveal_strlit("html-document");
    assert("html-document"@.len() == 13);
    reveal_strlit("folder");
    assert("folder"@.len() == 6);
    reveal_strlit("kanban");
    assert("kanban"@.len() == 6);
    reveal_strlit("todo");
    assert("todo"@.len() == 4);
    reveal_strlit("comment");
    assert("comment"@.len() == 7);
    assert("thread"@[0] == 't');
    assert("folder"@[0] == 'f');
    assert("kanban"@[0] == 'k');
    assert("file"@[0] == 'f');
    assert("todo"@[0] == 't');
}

/// A namespace is read back from its name, and from no other value.
pub proof fn namespace_is_read_back_from_its_name(namespace: ContentNamespace, value: Seq<char>)
    ensures
        ContentNamespace::named(namespace.name()) == Some(namespace),
        ContentNamespace::named(value) == Some(namespace) <==> value == namespace.name(),
{
    reveal_strlit("content");
    assert("content"@.len() == 7);
    reveal_strlit("publication");
    assert("publication"@.len() == 11);
}

} // verus!
