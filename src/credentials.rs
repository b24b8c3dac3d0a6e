//! Principals, their roles, and the capability checks made on them.

use vstd::prelude::*;

verus! {

/// A role a user may hold. A user may hold several; no role implies another.
#[derive(Clone, Copy, Debug, PartialEq, Eq, Structural)]
pub enum Role {
    Admin,
    Author,
    Reviewer,
    Publisher,
}

impl Role {
    /// The number the datastore uses for this role.
    pub open spec fn spec_id(self) -> i32 {
        match self {
            Role::Admin => 1,
            Role::Author => 2,
            Role::Reviewer => 3,
            Role::Publisher => 4,
        }
    }

    pub fn id(&self) -> (r: i32)
        ensures
            r == self.spec_id(),
    {
        match self {
            Role::Admin => 1,
            Role::Author => 2,
            Role::Reviewer => 3,
            Role::Publisher => 4,
        }
    }

    /// The role with the given datastore number, if there is one.
    pub fn from_id(id: i32) -> (r: Option<Role>)
        ensures
            match r {
                Some(role) => role.spec_id() == id,
                None => forall|role: Role| role.spec_id() != id,
            },
    {
        if id == 1 {
            Some(Role::Admin)
        } else if id == 2 {
            Some(Role::Author)
        } else if id == 3 {
            Some(Role::Reviewer)
        } else if id == 4 {
            Some(Role::Publisher)
        } else {
            None
        }
    }
}

/// A login request. Never kept beyond the datastore call.
#[derive(Clone, Debug, PartialEq, Eq)]
pub struct Login {
    pub username: String,
    pub password: String,
}

/// A registration request; `confirm` is the repeated password.
#[derive(Clone, Debug, PartialEq, Eq)]
pub struct Register {
    pub username: String,
    pub password: String,
    pub confirm: String,
}

/// An authenticated principal: the user name and the numbers of its roles.
#[derive(Clone, Debug, PartialEq, Eq)]
pub struct Credentials {
    pub username: String,
    pub roles: Vec<i32>,
}

/// A permission that some operations require.
#[derive(Clone, Copy, Debug, PartialEq, Eq, Structural)]
pub enum Capability {
    /// Writing articles and seeing unpublished work.
    AuthorContent,
}

impl Capability {
    /// The role numbers any one of which grants this capability.
    pub open spec fn granting_roles(self) -> Set<i32> {
        match self {
            Capability::AuthorContent => set![Role::Author.spec_id(), Role::Admin.spec_id()],
        }
    }
}

/// Some role of `roles` grants `capability`.
pub open spec fn grants(roles: Seq<i32>, capability: Capability) -> bool {
    exists|id: i32| #[trigger] roles.contains(id) && capability.granting_roles().contains(id)
}

/// Whether a session holds `capability`: an anonymous one holds none.
pub open spec fn session_has(session: Option<Credentials>, capability: Capability) -> bool {
    match session {
        Some(c) => grants(c.roles@, capability),
        None => false,
    }
}

fn holds_role(roles: &Vec<i32>, id: i32) -> (r: bool)
    ensures
        r == roles@.contains(id),
{
    let mut i: usize = 0;
    while i < roles.len()
        invariant
            i <= roles.len(),
            forall|j: int| 0 <= j < i ==> roles@[j] != id,
        decreases roles.len() - i,
    {
        if roles[i] == id {
            assert(roles@[i as int] == id);
            return true;
        }
        i = i + 1;
    }
    false
}

/// Whether the principal of a session, if any, holds `capability`.
pub fn has_capability(session: &Option<Credentials>, capability: Capability) -> (r: bool)
    ensures
        r == session_has(*session, capability),
{
    match session {
        Some(c) => match capability {
            // Author first: it is the more common of the two.
            Capability::AuthorContent => {
                let author = holds_role(&c.roles, Role::Author.id());
                let admin = holds_role(&c.roles, Role::Admin.id());
                assert(capability.granting_roles().contains(2) && capability.granting_roles().contains(1));
                author || admin
            },
        },
        None => false,
    }
}

/// Whether the session's principal may write articles: it holds the author
/// or the admin role.
pub fn can_write_article(session: &Option<Credentials>) -> (r: bool)
    ensures
        r == session_has(*session, Capability::AuthorContent),
        r == (session is Some && (session->0.roles@.contains(2) || session->0.roles@.contains(1))),
{
    has_capability(session, Capability::AuthorContent)
}

/// The user name of the session's principal.
pub fn get_username(session: Option<Credentials>) -> (r: Option<String>)
    ensures
        r == match session {
            Some(c) => Some(c.username),
            None => None::<String>,
        },
{
    match session {
        Some(c) => Some(c.username),
        None => None,
    }
}

/// The role numbers of the session's principal.
pub fn get_roles(session: Option<Credentials>) -> (r: Option<Vec<i32>>)
    ensures
        r == match session {
            Some(c) => Some(c.roles),
            None => None::<Vec<i32>>,
        },
{
    match session {
        Some(c) => Some(c.roles),
        None => None,
    }
}

/// A capability is held exactly when the principal's role set meets the set
/// of roles that grant it; an anonymous session holds none.
pub proof fn lemma_capability_is_role_intersection(session: Option<Credentials>, capability: Capability)
    ensures
        session_has(session, capability) == (session is Some && session->0.roles@.to_set().intersect(
            capability.granting_roles(),
        ) != Set::<i32>::empty()),
{
    if let Some(c) = session {
        let both = c.roles@.to_set().intersect(capability.granting_roles());
        if grants(c.roles@, capability) {
            let id = choose|id: i32| #[trigger] c.roles@.contains(id) && capability.granting_roles().contains(id);
            assert(both.contains(id));
        } else {
            assert(both =~= Set::<i32>::empty());
        }
    }
}

} // verus!
