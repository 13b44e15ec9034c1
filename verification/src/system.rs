//! Calls into the system: the clock, the generator of identifiers, the home
//! directory and the joining of paths. Nothing is claimed of what the clock,
//! the generator and the environment give, so what is proved of their
//! callers holds whatever comes back.

use vstd::prelude::*;

verus! {

/// `uuid::Uuid::new_v4`: a random identifier, handed out as its 128 bits
/// (`Uuid::as_u128`). Two calls may give any two values.
#[verifier::external_body]
pub(crate) fn fresh_id() -> (id: u128) {
    uuid::Uuid::new_v4().as_u128()
}

/// The text of an identifier of 128 bits in the hyphenated form of a UUID.
pub uninterp spec fn uuid_text(id: u128) -> Seq<char>;

/// `uuid::Uuid::from_u128` and the identifier's `Display`: the hyphenated
/// text of the identifier, a function of its 128 bits alone.
#[verifier::external_body]
pub(crate) fn id_text(id: u128) -> (s: String)
    ensures
        s@ == uuid_text(id),
{
    uuid::Uuid::from_u128(id).to_string()
}

/// `chrono::Utc::now`, as whole seconds since the Unix epoch
/// (`DateTime::timestamp`). It reads the system clock.
#[verifier::external_body]
pub(crate) fn now() -> (t: i64) {
    chrono::Utc::now().timestamp()
}

/// `dirs::home_dir`: the home directory of the user, as text
/// (`Path::to_string_lossy`); nothing where it cannot be found. It reads the
/// environment.
#[verifier::external_body]
pub(crate) fn home_directory() -> (home: Option<String>) {
    dirs::home_dir().map(|p| p.to_string_lossy().into_owned())
}

/// The path of `name` below `base`, as the platform that the library is
/// built for writes it.
pub uninterp spec fn path_joined(base: Seq<char>, name: Seq<char>) -> Seq<char>;

/// `std::path::Path::join`: the path of `name` below `base`, as text, a
/// function of the two texts alone. It reads neither the disk nor the
/// environment; which separator it puts between the two is a matter of the
/// platform that the library is built for.
#[verifier::external_body]
pub(crate) fn join_path(base: &str, name: &str) -> (path: String)
    ensures
        path@ == path_joined(base@, name@),
{
    std::path::Path::new(base).join(name).to_string_lossy().into_owned()
}

} // verus!
