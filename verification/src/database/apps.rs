//! Applications registered by a user.
use vstd::prelude::*;

verus! {

/// What a user sends to register an application.
pub struct AppsDto {
    pub name: String,
    pub owner: String,
}

/// A registered application.
pub struct Apps {
    pub id: i32,
    pub name: String,
    pub owner: String,
}

/// Why an application could not be read for its owner.
pub enum AppGetError {
    NotFound,
    Generic(sqlx::Error),
}

/// Why an application could not be updated.
pub enum AppsUpdateError {
    NotFound,
    Generic(sqlx::Error),
}

/// The application that an insert created: the row id given back by the
/// database (cut to 32 bits, as the column type is) with the name and owner sent.
pub fn create_result(app: AppsDto, inserted: Result<u64, sqlx::Error>) -> (r: Result<Apps, sqlx::Error>)
    ensures
        match inserted {
            Ok(id) => r matches Ok(a) && a.id == id as i32 && a.name == app.name && a.owner == app.owner,
            Err(e) => r == Err::<Apps, sqlx::Error>(e),
        },
{
    match inserted {
        Ok(id) => Ok(Apps { id: id as i32, name: app.name, owner: app.owner }),
        Err(e) => Err(e),
    }
}

} // verus!
