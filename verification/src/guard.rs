//! The request-time authorization guards. A guard extracts the bearer
//! token from the `Authorization` header (canonical form: a scheme word,
//! one space, then the token id), resolves it through the token store,
//! loads the user record, and rejects on missing/expired/blocked/
//! unauthorized conditions — all before any handler runs.

use vstd::prelude::*;
use vstd::string::StrSliceExecFns;
use crate::codec::{parse_hex32, parse_hex32_of};
use crate::fault::Fault;
use crate::store::{StoreEntry, TokenStore, token_hit};
use crate::user::{User, UserDirectory, UserV, find_by_id_spec};

verus! {

/// The index of the first space in `s` at or after `from`; the length of
/// `s` when there is none.
pub open spec fn space_from(s: Seq<char>, from: int) -> int
    decreases s.len() - from,
{
    if from < 0 || from >= s.len() {
        s.len() as int
    } else if s[from] == ' ' {
        from
    } else {
        space_from(s, from + 1)
    }
}

proof fn lemma_space_from_range(s: Seq<char>, from: int)
    requires
        0 <= from <= s.len(),
    ensures
        from <= space_from(s, from) <= s.len(),
    decreases s.len() - from,
{
    if from < s.len() && s[from] != ' ' {
        lemma_space_from_range(s, from + 1);
    }
}

/// A header value as the guard sees it, for specification purposes.
pub open spec fn opt_str_view(header: Option<&str>) -> Option<Seq<char>> {
    match header {
        None => None,
        Some(s) => Some(s@),
    }
}

/// What bearer-token extraction yields for a header: the token id taken
/// from the second space-separated chunk. A missing header is
/// `NotLoggedIn`, a header without a second chunk `MalformedAuthorization`,
/// and a chunk that is not a 32-digit identifier `UuidConversion`.
pub open spec fn authorization_token_of(header: Option<Seq<char>>) -> Result<int, Fault> {
    match header {
        None => Err(Fault::NotLoggedIn),
        Some(s) => {
            let sp1 = space_from(s, 0);
            if sp1 == s.len() {
                Err(Fault::MalformedAuthorization)
            } else {
                let sp2 = space_from(s, sp1 + 1);
                match parse_hex32_of(s.subrange(sp1 + 1, sp2)) {
                    Some(v) => Ok(v),
                    None => Err(Fault::UuidConversion),
                }
            }
        },
    }
}

fn find_space(s: &str, from: usize) -> (r: usize)
    requires
        from as int <= s@.len(),
    ensures
        r as int == space_from(s@, from as int),
        from <= r <= s@.len(),
{
    proof {
        lemma_space_from_range(s@, from as int);
    }
    let n = s.unicode_len();
    let mut i: usize = from;
    while i < n
        invariant
            from <= i <= n,
            n == s@.len(),
            space_from(s@, from as int) == space_from(s@, i as int),
        decreases n - i,
    {
        let c = s.get_char(i);
        if c == ' ' {
            return i;
        }
        i = i + 1;
    }
    i
}

/// Extracts the bearer token id from an `Authorization` header value:
/// the second space-separated chunk, read as a 32-digit identifier.
pub fn get_authorization_as_uuid(header: Option<&str>) -> (r: Result<u128, Fault>)
    ensures
        match r {
            Ok(v) => authorization_token_of(opt_str_view(header)) == Ok::<int, Fault>(v as int),
            Err(f) => authorization_token_of(opt_str_view(header)) == Err::<int, Fault>(f),
        },
{
    match header {
        None => Err(Fault::NotLoggedIn),
        Some(s) => {
            let n = s.unicode_len();
            let sp1 = find_space(s, 0);
            if sp1 == n {
                return Err(Fault::MalformedAuthorization);
            }
            let sp2 = find_space(s, sp1 + 1);
            let tok = s.substring_char(sp1 + 1, sp2);
            match parse_hex32(tok) {
                Some(v) => Ok(v),
                None => Err(Fault::UuidConversion),
            }
        },
    }
}

/// The role decision made once a user record is loaded: a blocked account
/// is rejected as blocked whatever the required role; where an admin is
/// required, anyone not marked an admin is rejected for insufficient
/// permissions; everyone else is admitted.
pub open spec fn role_check(u: UserV, require_admin: bool) -> Result<(), Fault> {
    if u.blocked == Some(true) {
        Err(Fault::UserBlocked)
    } else if require_admin && u.admin != Some(true) {
        Err(Fault::Unallowed)
    } else {
        Ok(())
    }
}

/// Decides whether a loaded user record may pass a guard, exactly as
/// `role_check` says.
pub fn authorize_user(user: &User, require_admin: bool) -> (r: Result<(), Fault>)
    ensures
        r == role_check(user@, require_admin),
{
    match user.blocked {
        Some(true) => {
            return Err(Fault::UserBlocked);
        },
        _ => {},
    }
    if require_admin {
        match user.admin {
            Some(true) => Ok(()),
            _ => Err(Fault::Unallowed),
        }
    } else {
        Ok(())
    }
}

/// The full guard decision: token extraction, store resolution, user load,
/// blocked check, and — for the admin variant — the role check. Any parse
/// failure counts as an invalid session, and an unresolvable user is
/// treated the same rather than leaking whether the record exists.
pub open spec fn guard_spec(
    index: Map<u128, StoreEntry>,
    users: Seq<UserV>,
    header: Option<Seq<char>>,
    now_ms: i64,
    require_admin: bool,
) -> Result<UserV, Fault> {
    match authorization_token_of(header) {
        Err(_) => Err(Fault::NotLoggedIn),
        Ok(tok) => {
            if !token_hit(index, tok as u128, now_ms) {
                Err(Fault::NotLoggedIn)
            } else {
                match find_by_id_spec(users, index[tok as u128].user) {
                    None => Err(Fault::NotLoggedIn),
                    Some(u) => match role_check(u, require_admin) {
                        Err(f) => Err(f),
                        Ok(admitted) => Ok(u),
                    },
                }
            }
        },
    }
}

/// Admits any authenticated, non-blocked user; the admitted record is
/// handed to the handler.
pub fn logged_in_guard<'a>(
    store: &TokenStore,
    dir: &'a UserDirectory,
    header: Option<&str>,
    now_ms: i64,
) -> (r: Result<&'a User, Fault>)
    ensures
        match r {
            Ok(u) => guard_spec(
                store.access_index(),
                dir.records(),
                opt_str_view(header),
                now_ms,
                false,
            ) == Ok::<UserV, Fault>(u@),
            Err(f) => guard_spec(
                store.access_index(),
                dir.records(),
                opt_str_view(header),
                now_ms,
                false,
            ) == Err::<UserV, Fault>(f),
        },
{
    let token = match get_authorization_as_uuid(header) {
        Ok(t) => t,
        Err(_) => {
            return Err(Fault::NotLoggedIn);
        },
    };
    let user_id = match store.get_user_for_access_token(token, now_ms) {
        Ok(u) => u,
        Err(f) => {
            return Err(f);
        },
    };
    let user = match dir.q_get_user_by_id(user_id) {
        Some(u) => u,
        None => {
            return Err(Fault::NotLoggedIn);
        },
    };
    match authorize_user(user, false) {
        Ok(()) => Ok(user),
        Err(f) => Err(f),
    }
}

/// Admits only authenticated, non-blocked admins. A blocked account is
/// rejected as blocked whatever its role; any other non-admin is rejected
/// for insufficient permissions.
pub fn admin_guard<'a>(
    store: &TokenStore,
    dir: &'a UserDirectory,
    header: Option<&str>,
    now_ms: i64,
) -> (r: Result<&'a User, Fault>)
    ensures
        match r {
            Ok(u) => guard_spec(
                store.access_index(),
                dir.records(),
                opt_str_view(header),
                now_ms,
                true,
            ) == Ok::<UserV, Fault>(u@),
            Err(f) => guard_spec(
                store.access_index(),
                dir.records(),
                opt_str_view(header),
                now_ms,
                true,
            ) == Err::<UserV, Fault>(f),
        },
{
    let token = match get_authorization_as_uuid(header) {
        Ok(t) => t,
        Err(_) => {
            return Err(Fault::NotLoggedIn);
        },
    };
    let user_id = match store.get_user_for_access_token(token, now_ms) {
        Ok(u) => u,
        Err(f) => {
            return Err(f);
        },
    };
    let user = match dir.q_get_user_by_id(user_id) {
        Some(u) => u,
        None => {
            return Err(Fault::NotLoggedIn);
        },
    };
    match authorize_user(user, true) {
        Ok(()) => Ok(user),
        Err(f) => Err(f),
    }
}

/// A blocked user is rejected as blocked by either guard variant, even
/// when the presented access token is store-valid and unexpired.
pub proof fn lemma_guard_rejects_blocked(
    index: Map<u128, StoreEntry>,
    users: Seq<UserV>,
    header: Option<Seq<char>>,
    now_ms: i64,
    require_admin: bool,
    tok: int,
    u: UserV,
)
    requires
        authorization_token_of(header) == Ok::<int, Fault>(tok),
        token_hit(index, tok as u128, now_ms),
        find_by_id_spec(users, index[tok as u128].user) == Some(u),
        u.blocked == Some(true),
    ensures
        guard_spec(index, users, header, now_ms, require_admin) == Err::<UserV, Fault>(
            Fault::UserBlocked,
        ),
{
}

/// Among valid, non-blocked sessions the admin guard admits exactly the
/// admins: any non-admin is rejected for insufficient permissions.
pub proof fn lemma_admin_guard_requires_admin(
    index: Map<u128, StoreEntry>,
    users: Seq<UserV>,
    header: Option<Seq<char>>,
    now_ms: i64,
    tok: int,
    u: UserV,
)
    requires
        authorization_token_of(header) == Ok::<int, Fault>(tok),
        token_hit(index, tok as u128, now_ms),
        find_by_id_spec(users, index[tok as u128].user) == Some(u),
        u.blocked != Some(true),
    ensures
        u.admin == Some(true) ==> guard_spec(index, users, header, now_ms, true) == Ok::<
            UserV,
            Fault,
        >(u),
        u.admin != Some(true) ==> guard_spec(index, users, header, now_ms, true) == Err::<
            UserV,
            Fault,
        >(Fault::Unallowed),
{
}

/// The logged-in guard admits every authenticated, non-blocked user.
pub proof fn lemma_logged_in_guard_admits(
    index: Map<u128, StoreEntry>,
    users: Seq<UserV>,
    header: Option<Seq<char>>,
    now_ms: i64,
    tok: int,
    u: UserV,
)
    requires
        authorization_token_of(header) == Ok::<int, Fault>(tok),
        token_hit(index, tok as u128, now_ms),
        find_by_id_spec(users, index[tok as u128].user) == Some(u),
        u.blocked != Some(true),
    ensures
        guard_spec(index, users, header, now_ms, false) == Ok::<UserV, Fault>(u),
{
}

} // verus!
