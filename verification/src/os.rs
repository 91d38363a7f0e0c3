//! The operating-system collaborators: one raw lookup per call, no caching.
//!
//! Every function here wraps one call into the `nix` crate, which performs
//! the underlying identity-database query. An OS or library error is
//! absorbed as "not found", which is how the caches treat it.

use vstd::prelude::*;

use crate::record::Group;
use crate::record::User;

verus! {

/// Relies on `nix::unistd::User::from_uid` (`getpwuid_r`): on success the
/// returned entry is the one of the user database that matches the queried
/// uid. An error is absorbed as "not found".
#[verifier::external_body]
pub(crate) fn user_by_uid(uid: u32) -> (r: Option<User>)
    ensures
        r matches Some(u) ==> u.uid == uid,
{
    match nix::unistd::User::from_uid(nix::unistd::Uid::from_raw(uid)) {
        Ok(Some(u)) => Some(User {
            uid: u.uid.as_raw(),
            primary_gid: u.gid.as_raw(),
            name: u.name,
            home_dir: u.dir.to_string_lossy().into_owned(),
            shell: u.shell.to_string_lossy().into_owned(),
            gecos: u.gecos.to_string_lossy().into_owned(),
        }),
        Ok(None) => None,
        Err(_) => None,
    }
}

/// Relies on `nix::unistd::User::from_name` (`getpwnam_r`). Nothing is
/// assumed of the returned record: the database may bind a name to an entry
/// whose own name differs from the queried one. An error is absorbed as
/// "not found".
#[verifier::external_body]
pub(crate) fn user_by_name(name: &str) -> (r: Option<User>) {
    match nix::unistd::User::from_name(name) {
        Ok(Some(u)) => Some(User {
            uid: u.uid.as_raw(),
            primary_gid: u.gid.as_raw(),
            name: u.name,
            home_dir: u.dir.to_string_lossy().into_owned(),
            shell: u.shell.to_string_lossy().into_owned(),
            gecos: u.gecos.to_string_lossy().into_owned(),
        }),
        Ok(None) => None,
        Err(_) => None,
    }
}

/// Relies on `nix::unistd::Group::from_gid` (`getgrgid_r`): on success the
/// returned entry is the one of the group database that matches the queried
/// gid. An error is absorbed as "not found".
#[verifier::external_body]
pub(crate) fn group_by_gid(gid: u32) -> (r: Option<Group>)
    ensures
        r matches Some(g) ==> g.gid == gid,
{
    match nix::unistd::Group::from_gid(nix::unistd::Gid::from_raw(gid)) {
        Ok(Some(g)) => Some(Group { gid: g.gid.as_raw(), name: g.name, members: g.mem }),
        Ok(None) => None,
        Err(_) => None,
    }
}

/// Relies on `nix::unistd::Group::from_name` (`getgrnam_r`). Nothing is
/// assumed of the returned record. An error is absorbed as "not found".
#[verifier::external_body]
pub(crate) fn group_by_name(name: &str) -> (r: Option<Group>) {
    match nix::unistd::Group::from_name(name) {
        Ok(Some(g)) => Some(Group { gid: g.gid.as_raw(), name: g.name, members: g.mem }),
        Ok(None) => None,
        Err(_) => None,
    }
}

/// Relies on `nix::unistd::getuid`: the real uid of the calling process.
#[verifier::external_body]
pub(crate) fn current_uid() -> (r: u32) {
    nix::unistd::getuid().as_raw()
}

/// Relies on `nix::unistd::geteuid`: the effective uid of the calling process.
#[verifier::external_body]
pub(crate) fn effective_uid() -> (r: u32) {
    nix::unistd::geteuid().as_raw()
}

/// Relies on `nix::unistd::getgid`: the real gid of the calling process.
#[verifier::external_body]
pub(crate) fn current_gid() -> (r: u32) {
    nix::unistd::getgid().as_raw()
}

/// Relies on `nix::unistd::getegid`: the effective gid of the calling process.
#[verifier::external_body]
pub(crate) fn effective_gid() -> (r: u32) {
    nix::unistd::getegid().as_raw()
}

} // verus!
