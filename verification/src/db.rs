//! The address of the database the server connects to.

use vstd::prelude::*;
use crate::args::Args;

verus! {

/// The connection address for `args`: with no password, the user alone
/// before `@` (under the scheme `postgress`); else `user:password` (under
/// the scheme `postgres`).
pub open spec fn database_url_spec(args: Args) -> Seq<char> {
    if args.db_password@.len() == 0 {
        "postgress://"@ + args.db_user@ + "@"@ + args.db_host@ + ":"@ + args.db_port@ + "/"@
            + args.db_name@
    } else {
        "postgres://"@ + args.db_user@ + ":"@ + args.db_password@ + "@"@ + args.db_host@ + ":"@
            + args.db_port@ + "/"@ + args.db_name@
    }
}

/// The connection address for `args`.
pub fn database_url(args: &Args) -> (url: String)
    ensures
        url@ == database_url_spec(*args),
        args.db_password@.len() > 0 ==> url@ == "postgres://"@ + args.db_user@ + ":"@
            + args.db_password@ + "@"@ + args.db_host@ + ":"@ + args.db_port@ + "/"@
            + args.db_name@,
        args.db_password@.len() == 0 ==> url@ == "postgress://"@ + args.db_user@ + "@"@
            + args.db_host@ + ":"@ + args.db_port@ + "/"@ + args.db_name@,
{
    let mut url = if args.db_password.as_str().is_empty() {
        let mut u = String::from_str("postgress://");
        u.append(args.db_user.as_str());
        u
    } else {
        let mut u = String::from_str("postgres://");
        u.append(args.db_user.as_str());
        u.append(":");
        u.append(args.db_password.as_str());
        u
    };
    url.append("@");
    url.append(args.db_host.as_str());
    url.append(":");
    url.append(args.db_port.as_str());
    url.append("/");
    url.append(args.db_name.as_str());
    url
}

/// Any non-empty password is carried in the address, right after the user
/// and a `:`; the address without a password is used only when the password
/// is empty.
pub proof fn lemma_database_url_carries_password(args: Args)
    ensures
        args.db_password@.len() > 0 ==> database_url_spec(args) == "postgres://"@ + args.db_user@
            + ":"@ + args.db_password@ + "@"@ + args.db_host@ + ":"@ + args.db_port@ + "/"@
            + args.db_name@,
        args.db_password@.len() == 0 ==> database_url_spec(args) == "postgress://"@
            + args.db_user@ + "@"@ + args.db_host@ + ":"@ + args.db_port@ + "/"@ + args.db_name@,
{
}

} // verus!
