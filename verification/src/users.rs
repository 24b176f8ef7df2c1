//! User lookup for protected resources, outside the authentication
//! flows themselves.

use vstd::prelude::*;

use crate::directory::User;
use crate::directory::UserDirectory;
use crate::directory::has_id;
use crate::directory::id_index;
use crate::errors::UserError;

verus! {

/// Read-only user queries made on behalf of an authenticated request.
pub struct UserSerivce;

impl UserSerivce {
    /// The record with the given id, typically the subject of a
    /// verified claim; absent ids are reported as not found.
    pub fn get_user_by_id(directory: &UserDirectory, user_id: i32) -> (r: Result<User, UserError>)
        requires
            directory.wf(),
        ensures
            r is Ok <==> has_id(directory@, user_id as int),
            r matches Ok(u) ==> u@ == directory@[id_index(directory@, user_id as int)],
            r matches Err(e) ==> e == UserError::NotFound,
    {
        match directory.find_by_id(user_id) {
            Some(u) => Ok(u),
            None => Err(UserError::NotFound),
        }
    }
}

} // verus!
