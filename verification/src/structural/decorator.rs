//! Decorator: a wrapper adds behaviour around a repository without touching
//! it. The logging wrapper's extra work is pure reporting, so its contract
//! is exactly the wrapped repository's contract.

use vstd::prelude::*;
use vstd::string::StringExecFns;

verus! {

pub struct User {
    pub name: String,
    pub age: u16,
}

/// The mathematical image of an optional user: name and age.
pub open spec fn found_user(r: Option<User>) -> Option<(Seq<char>, u16)> {
    match r {
        Some(u) => Some((u.name@, u.age)),
        None => None,
    }
}

pub trait UserRepository: Sized {
    /// When a lookup may be asked of this repository.
    spec fn find_req(&self, name: Seq<char>) -> bool;

    /// How a lookup relates the repository before and after to its answer.
    spec fn find_post(pre: Self, post: Self, name: Seq<char>, r: Option<(Seq<char>, u16)>) -> bool;

    fn find_user(&mut self, name: String) -> (r: Option<User>)
        requires
            old(self).find_req(name@),
        ensures
            Self::find_post(*old(self), *final(self), name@, found_user(r)),
    ;
}

/// The toy database repository: it answers every lookup with the same user.
pub struct UserPostgreRepository {}

impl UserRepository for UserPostgreRepository {
    open spec fn find_req(&self, name: Seq<char>) -> bool {
        true
    }

    open spec fn find_post(pre: Self, post: Self, name: Seq<char>, r: Option<(Seq<char>, u16)>) -> bool {
        r == Some(("John Doe"@, 37u16))
    }

    fn find_user(&mut self, name: String) -> (r: Option<User>) {
        Some(User { name: String::from_str("John Doe"), age: 37 })
    }
}

/// Wraps a repository to log each query; the timing and printing are left
/// to the host, so the lookup itself is untouched delegation.
pub struct UserRepositoryWithLogger<R> {
    pub repo: R,
}

impl<R: UserRepository> UserRepository for UserRepositoryWithLogger<R> {
    open spec fn find_req(&self, name: Seq<char>) -> bool {
        self.repo.find_req(name)
    }

    open spec fn find_post(pre: Self, post: Self, name: Seq<char>, r: Option<(Seq<char>, u16)>) -> bool {
        R::find_post(pre.repo, post.repo, name, r)
    }

    fn find_user(&mut self, name: String) -> (r: Option<User>) {
        self.repo.find_user(name)
    }
}

} // verus!
