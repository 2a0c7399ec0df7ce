//! The cached authenticated account and the small rules around it: the
//! process-wide account slot, recovery from the specific session-expired
//! authentication code, the developer-team choice, and the stored list of
//! account ids offered at login. Credential storage and the authentication
//! protocol are external collaborators.

use vstd::prelude::*;

use crate::text::str_eq;

verus! {

/// The authenticated account as this core reads it: its account id.
pub struct Account {
    pub apple_id: String,
}

impl View for Account {
    type V = Seq<char>;

    open spec fn view(&self) -> Seq<char> {
        self.apple_id@
    }
}

impl Clone for Account {
    fn clone(&self) -> (r: Self)
        ensures
            r@ == self@,
    {
        Account { apple_id: self.apple_id.clone() }
    }
}

/// Failure to produce an authenticated account.
#[derive(Clone, Copy, PartialEq, Eq, Structural, Debug)]
pub enum AuthenticationError {
    /// No account is cached.
    NotLoggedIn,
    /// The cached account's session has expired; a fresh login is needed.
    SessionExpired,
}

impl AuthenticationError {
    /// The user-visible description of the failure.
    pub fn message(&self) -> (r: String)
        ensures
            self is NotLoggedIn ==> r@ == "Not logged in"@,
            self is SessionExpired ==> r@ == "Session timed out, please try again"@,
    {
        match self {
            AuthenticationError::NotLoggedIn => "Not logged in".to_owned(),
            AuthenticationError::SessionExpired => "Session timed out, please try again".to_owned(),
        }
    }
}

/// The authentication code meaning the login is too old and must be redone.
pub const SESSION_EXPIRED_CODE: i64 = -22411;

/// The process-wide slot caching the logged-in account.
pub struct AccountStore {
    account: Option<Account>,
}

impl View for AccountStore {
    type V = Option<Seq<char>>;

    closed spec fn view(&self) -> Option<Seq<char>> {
        match self.account {
            Some(a) => Some(a@),
            None => None,
        }
    }
}

impl AccountStore {
    /// A store with nobody logged in.
    pub fn new() -> (r: Self)
        ensures
            r@ is None,
    {
        AccountStore { account: None }
    }

    /// Caches the account of a successful login, overwriting any previous one.
    pub fn set_account(&mut self, account: Account)
        ensures
            final(self)@ == Some(account@),
    {
        self.account = Some(account);
    }

    /// Drops the cached account (logout, or a detected session expiry).
    pub fn invalidate(&mut self)
        ensures
            final(self)@ is None,
    {
        self.account = None;
    }

    /// The id of the logged-in account, if any.
    pub fn logged_in_as(&self) -> (r: Option<String>)
        ensures
            match r {
                Some(id) => self@ == Some(id@),
                None => self@ is None,
            },
    {
        match &self.account {
            Some(a) => Some(a.apple_id.clone()),
            None => None,
        }
    }

    /// The cached account, or the error telling the user to log in.
    pub fn get_account(&self) -> (r: Result<Account, AuthenticationError>)
        ensures
            self@ matches Some(id) ==> (r matches Ok(a) && a@ == id),
            self@ is None ==> r == Err::<Account, AuthenticationError>(
                AuthenticationError::NotLoggedIn,
            ),
    {
        match &self.account {
            Some(a) => Ok(a.clone()),
            None => Err(AuthenticationError::NotLoggedIn),
        }
    }

    /// Local recovery from an authentication failure: exactly the
    /// session-expired code drops the cached account, so the user sees a
    /// re-login prompt instead of a raw protocol error; every other code
    /// leaves the cache as it is.
    pub fn recover_if_expired(&mut self, code: i64) -> (expired: bool)
        ensures
            expired == (code == SESSION_EXPIRED_CODE),
            expired ==> final(self)@ is None,
            !expired ==> *final(self) == *old(self),
    {
        if code == SESSION_EXPIRED_CODE {
            self.account = None;
            true
        } else {
            false
        }
    }
}

/// The developer team a fresh session works under: the first of the
/// account's teams, or nothing when the account has none.
pub fn choose_team<T>(teams: &Vec<T>) -> (r: Option<&T>)
    ensures
        teams@.len() == 0 ==> r is None,
        teams@.len() > 0 ==> (r matches Some(t) && *t == teams@[0]),
{
    if teams.len() == 0 {
        None
    } else {
        Some(&teams[0])
    }
}

/// The character sequences of a list of stored ids.
pub open spec fn id_views(ids: Seq<String>) -> Seq<Seq<char>> {
    ids.map_values(|s: String| s@)
}

/// Keeps every id other than `gone`.
pub open spec fn keeps(gone: Seq<char>) -> spec_fn(Seq<char>) -> bool {
    |v: Seq<char>| v != gone
}

/// Adds an account id to the stored list shown at login, unless an equal id
/// is already there.
pub fn remember_id(ids: &mut Vec<String>, id: &String)
    ensures
        id_views(old(ids)@).contains(id@) ==> *final(ids) == *old(ids),
        !id_views(old(ids)@).contains(id@) ==> final(ids)@ == old(ids)@.push(*id),
{
    let n = ids.len();
    let mut i: usize = 0;
    while i < n
        invariant
            i <= n,
            n == ids@.len(),
            forall|j: int| 0 <= j < i ==> (#[trigger] ids@[j])@ != id@,
        decreases n - i,
    {
        if ids[i] == *id {
            proof {
                assert(id_views(ids@)[i as int] == id@);
            }
            return ;
        }
        i += 1;
    }
    proof {
        assert forall|j: int| 0 <= j < id_views(ids@).len() implies id_views(ids@)[j] != id@ by {
            assert((ids@[j])@ != id@);
        }
    }
    ids.push(id.clone());
    proof {
        assert(ids@ =~= old(ids)@.push(*id));
    }
}

/// Removes every stored occurrence of an account id (account deletion),
/// keeping the rest in order.
pub fn forget_id(ids: &mut Vec<String>, id: &str)
    ensures
        id_views(final(ids)@) == id_views(old(ids)@).filter(keeps(id@)),
{
    let n = ids.len();
    let mut kept: Vec<String> = Vec::new();
    proof {
        reveal(Seq::filter);
        assert(old(ids)@.subrange(0, 0) =~= Seq::<String>::empty());
        assert(id_views(kept@) =~= id_views(old(ids)@.subrange(0, 0)).filter(keeps(id@)));
    }
    let mut j: usize = 0;
    while j < n
        invariant
            j <= n,
            n == ids@.len(),
            ids == old(ids),
            id_views(kept@) == id_views(ids@.subrange(0, j as int)).filter(keeps(id@)),
        decreases n - j,
    {
        let matched = str_eq(ids[j].as_str(), id);
        if !matched {
            kept.push(ids[j].clone());
        }
        proof {
            reveal(Seq::filter);
            let pre = id_views(ids@.subrange(0, j as int));
            let post = id_views(ids@.subrange(0, j as int + 1));
            assert(post =~= pre.push((ids@[j as int])@));
            assert(post.drop_last() =~= pre);
            assert(post.last() == (ids@[j as int])@);
            if matched {
                assert(!keeps(id@)(post.last()));
                assert(post.filter(keeps(id@)) == pre.filter(keeps(id@)));
            } else {
                assert(keeps(id@)(post.last()));
                assert(post.filter(keeps(id@)) == pre.filter(keeps(id@)).push(post.last()));
                assert(id_views(kept@) =~= pre.filter(keeps(id@)).push(post.last()));
            }
        }
        j += 1;
    }
    proof {
        assert(ids@.subrange(0, n as int) =~= ids@);
    }
    *ids = kept;
}

} // verus!
