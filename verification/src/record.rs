//! The identity records handed out by the caches: immutable descriptions
//! of one user or one group of the operating system's identity database.

use vstd::prelude::*;

verus! {

/// An immutable record describing one user: its numeric id, the numeric id
/// of its primary group, its name, and the auxiliary account fields.
pub struct User {
    /// The user's numeric id.
    pub uid: u32,
    /// The numeric id of the user's primary group.
    pub primary_gid: u32,
    /// The user's name.
    pub name: String,
    /// The user's home directory.
    pub home_dir: String,
    /// The user's login shell.
    pub shell: String,
    /// The user's descriptive gecos field.
    pub gecos: String,
}

/// An immutable record describing one group: its numeric id, its name,
/// and the names of its members.
pub struct Group {
    /// The group's numeric id.
    pub gid: u32,
    /// The group's name.
    pub name: String,
    /// The names of the group's members.
    pub members: Vec<String>,
}

impl User {
    /// Builds a user record from its identifying parts; the auxiliary
    /// fields start empty.
    pub fn new(uid: u32, primary_gid: u32, name: String) -> (r: Self)
        ensures
            r.uid == uid,
            r.primary_gid == primary_gid,
            r.name == name,
            r.home_dir@ == Seq::<char>::empty(),
            r.shell@ == Seq::<char>::empty(),
            r.gecos@ == Seq::<char>::empty(),
    {
        User {
            uid,
            primary_gid,
            name,
            home_dir: String::new(),
            shell: String::new(),
            gecos: String::new(),
        }
    }

    /// The same record with the given home directory.
    pub fn with_home_dir(self, home_dir: String) -> (r: Self)
        ensures
            r == (User { home_dir, ..self }),
    {
        User { home_dir, ..self }
    }

    /// The same record with the given login shell.
    pub fn with_shell(self, shell: String) -> (r: Self)
        ensures
            r == (User { shell, ..self }),
    {
        User { shell, ..self }
    }

    /// The same record with the given gecos field.
    pub fn with_gecos(self, gecos: String) -> (r: Self)
        ensures
            r == (User { gecos, ..self }),
    {
        User { gecos, ..self }
    }

    /// The user's numeric id.
    pub fn uid(&self) -> (r: u32)
        ensures
            r == self.uid,
    {
        self.uid
    }

    /// The numeric id of the user's primary group.
    pub fn primary_group_id(&self) -> (r: u32)
        ensures
            r == self.primary_gid,
    {
        self.primary_gid
    }

    /// The user's name.
    pub fn name(&self) -> (r: &str)
        ensures
            r@ == self.name@,
    {
        self.name.as_str()
    }
}

impl Clone for User {
    fn clone(&self) -> (r: Self)
        ensures
            r == *self,
    {
        User {
            uid: self.uid,
            primary_gid: self.primary_gid,
            name: self.name.clone(),
            home_dir: self.home_dir.clone(),
            shell: self.shell.clone(),
            gecos: self.gecos.clone(),
        }
    }
}

impl Group {
    /// Builds a group record from its identifying parts; the member list
    /// starts empty.
    pub fn new(gid: u32, name: String) -> (r: Self)
        ensures
            r.gid == gid,
            r.name == name,
            r.members@ == Seq::<String>::empty(),
    {
        Group { gid, name, members: Vec::new() }
    }

    /// The same record with the given member names.
    pub fn with_members(self, members: Vec<String>) -> (r: Self)
        ensures
            r == (Group { members, ..self }),
    {
        Group { members, ..self }
    }

    /// The group's numeric id.
    pub fn gid(&self) -> (r: u32)
        ensures
            r == self.gid,
    {
        self.gid
    }

    /// The group's name.
    pub fn name(&self) -> (r: &str)
        ensures
            r@ == self.name@,
    {
        self.name.as_str()
    }
}

impl Clone for Group {
    fn clone(&self) -> (r: Self)
        ensures
            r.gid == self.gid,
            r.name == self.name,
            r.members@ == self.members@,
    {
        let members = self.members.clone();
        proof {
            assert(members@ =~= self.members@);
        }
        Group { gid: self.gid, name: self.name.clone(), members }
    }
}

} // verus!
