//! The administration services: signing in, and the upkeep of users.

use vstd::prelude::*;
use vstd::string::StringExecFns;
use crate::entity::user::User;
use crate::error::{OrcaError, OrcaErrorView, OrcaRepoError, RepoErrorView};

verus! {

/// A window into a list: the number of the page, counted from 1, and the
/// number of rows on a page.
#[derive(Clone, Copy, Debug, PartialEq, Eq, Structural)]
pub struct Pagination {
    pub offset: u64,
    pub limit: u64,
}

/// The rows that a window shows: how many rows to skip, and how many to take.
#[derive(Clone, Copy, Debug, PartialEq, Eq, Structural)]
pub struct Window {
    pub skip: u64,
    pub take: u64,
}

impl Pagination {
    /// The number of rows before the page, kept within the range of its
    /// field. The page before the first one shows what the first one shows.
    pub open spec fn skipped(self) -> int {
        let pages = if self.offset == 0 {
            0
        } else {
            self.offset - 1
        };
        if pages * self.limit > u64::MAX {
            u64::MAX as int
        } else {
            pages * self.limit
        }
    }

    /// The number of the page.
    pub fn offset(&self) -> (offset: u64)
        ensures
            offset == self.offset,
    {
        self.offset
    }

    /// The number of rows on a page.
    pub fn limit(&self) -> (limit: u64)
        ensures
            limit == self.limit,
    {
        self.limit
    }
}

/// The sign-in service.
pub struct AuthService {}

/// The service that keeps the users.
pub struct UserService {}

impl AuthService {
    /// Signs a user in. `found` is the user that is kept under `email`, if
    /// there is one. Fails as not found where there is none, and as an
    /// invalid user name where the password is not the expected one.
    pub fn auth_user(found: Option<User>, email: String, password: String) -> (result: Result<
        User,
        OrcaError,
    >)
        ensures
            result is Ok <==> found is Some && password@ == "password"@,
            result matches Ok(user) ==> found == Some(user),
            result matches Err(error) ==> error@ == match found {
                None => OrcaErrorView::RepoError(RepoErrorView::ModelNotFound("User"@, email@)),
                Some(user) => OrcaErrorView::RepoError(RepoErrorView::InvalidUsername(user.id@)),
            },
    {
        match found {
            None => Err(
                OrcaError::RepoError(OrcaRepoError::ModelNotFound(String::from_str("User"), email)),
            ),
            Some(user) => {
                if String::from_str("password") != password {
                    Err(OrcaError::RepoError(OrcaRepoError::InvalidUsername(user.id)))
                } else {
                    Ok(user)
                }
            },
        }
    }
}

impl UserService {
    /// The rows that a page of users is made of.
    pub fn list_users(page: Pagination) -> (window: Window)
        ensures
            window.skip == page.skipped(),
            window.take == page.limit,
    {
        let pages: u64 = if page.offset() == 0 {
            0
        } else {
            page.offset() - 1
        };
        let skip: u64 = match pages.checked_mul(page.limit()) {
            Some(rows) => rows,
            None => u64::MAX,
        };
        Window { skip, take: page.limit() }
    }

    /// What the lookup of the user kept under `id` comes to: a failure where
    /// there is no such user.
    pub fn get_user_by_id(found: Option<User>, id: String) -> (result: Result<(), OrcaError>)
        ensures
            result is Ok <==> found is Some,
            result matches Err(error) ==> error@ == OrcaErrorView::RepoError(
                RepoErrorView::ModelNotFound("User"@, id@),
            ),
    {
        match found {
            Some(_) => Ok(()),
            None => Err(
                OrcaError::RepoError(OrcaRepoError::ModelNotFound(String::from_str("User"), id)),
            ),
        }
    }

    /// What the deletion of the user kept under `id` comes to, by the number
    /// of rows that it removed: a failure where it removed none.
    pub fn delete_user_by_id(rows_affected: u64, id: String) -> (result: Result<(), OrcaError>)
        ensures
            result is Ok <==> rows_affected != 0,
            result matches Err(error) ==> error@ == OrcaErrorView::RepoError(
                RepoErrorView::ModelNotFound("User"@, id@),
            ),
    {
        if rows_affected == 0 {
            Err(OrcaError::RepoError(OrcaRepoError::ModelNotFound(String::from_str("User"), id)))
        } else {
            Ok(())
        }
    }
}

} // verus!
