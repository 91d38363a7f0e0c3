//! An identity-record cache: memoized lookups of the operating system's
//! user and group database, with bidirectional id/name indexing, negative
//! caching, and shared ownership of returned records.

pub mod cache;
pub mod laws;
pub mod map;
mod os;
pub mod record;
pub mod snapshot;
pub mod traits;

pub use cache::UsersCache;
pub use record::Group;
pub use record::User;
pub use snapshot::UsersSnapshot;
pub use traits::AllUsers;
pub use traits::Groups;
pub use traits::Users;
