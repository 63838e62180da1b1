//! Credential resolution over an injectable, environment-like configuration
//! store, so that callers and tests can supply fixed values.

use vstd::prelude::*;
use vstd::string::*;
use crate::error::ApiError;
use crate::error::ErrorView;

verus! {

/// A read-only store of key/value pairs, as a process environment presents
/// them. Lookups return the first entry with the given key.
pub struct Config {
    pub entries: Vec<(String, String)>,
}

impl View for Config {
    type V = Seq<(Seq<char>, Seq<char>)>;

    open spec fn view(&self) -> Seq<(Seq<char>, Seq<char>)> {
        self.entries.deep_view()
    }
}

/// The value of the first entry of `cfg` whose key reads `key`, if any.
pub open spec fn cfg_get(cfg: Seq<(Seq<char>, Seq<char>)>, key: Seq<char>) -> Option<Seq<char>>
    decreases cfg.len(),
{
    if cfg.len() == 0 {
        None
    } else if cfg[0].0 == key {
        Some(cfg[0].1)
    } else {
        cfg_get(cfg.skip(1), key)
    }
}

proof fn lemma_cfg_get_found(cfg: Seq<(Seq<char>, Seq<char>)>, key: Seq<char>, i: int)
    requires
        0 <= i < cfg.len(),
        forall|j: int| 0 <= j < i ==> cfg[j].0 != key,
        cfg[i].0 == key,
    ensures
        cfg_get(cfg, key) == Some(cfg[i].1),
    decreases i,
{
    if i > 0 {
        lemma_cfg_get_found(cfg.skip(1), key, i - 1);
    }
}

proof fn lemma_cfg_get_none(cfg: Seq<(Seq<char>, Seq<char>)>, key: Seq<char>)
    requires
        forall|j: int| 0 <= j < cfg.len() ==> cfg[j].0 != key,
    ensures
        cfg_get(cfg, key) is None,
    decreases cfg.len(),
{
    if cfg.len() > 0 {
        lemma_cfg_get_none(cfg.skip(1), key);
    }
}

impl Config {
    /// An empty store.
    pub fn new() -> (r: Config)
        ensures
            r@ == Seq::<(Seq<char>, Seq<char>)>::empty(),
    {
        Config { entries: Vec::new() }
    }

    /// Appends one key/value pair.
    pub fn push(&mut self, key: String, value: String)
        ensures
            final(self)@ == old(self)@.push((key@, value@)),
    {
        let ghost before = self@;
        self.entries.push((key, value));
        proof {
            assert(self@ =~= before.push((self.entries@.last().0@, self.entries@.last().1@)));
        }
    }

    /// Looks a key up, matching [`cfg_get`].
    #[verifier::loop_isolation(false)]
    pub fn get<'a>(&'a self, key: &str) -> (r: Option<&'a String>)
        ensures
            match r {
                Some(v) => cfg_get(self@, key@) == Some(v@),
                None => cfg_get(self@, key@) is None,
            },
    {
        let n = self.entries.len();
        let mut i: usize = 0;
        while i < n
            invariant
                i <= n,
                forall|j: int| 0 <= j < i ==> self@[j].0 != key@,
            decreases n - i,
        {
            if crate::strutil::str_eq(self.entries[i].0.as_str(), key) {
                proof {
                    lemma_cfg_get_found(self@, key@, i as int);
                }
                return Some(&self.entries[i].1);
            }
            i = i + 1;
        }
        proof {
            lemma_cfg_get_none(self@, key@);
        }
        None
    }
}

/// A username/password pair resolved for one service; immutable once
/// resolved and never serialized back out.
#[derive(Debug)]
pub struct Credentials {
    pub username: String,
    pub password: String,
}

/// The lookup key for the username of the service named by `prefix`.
pub open spec fn username_key(prefix: Seq<char>) -> Seq<char> {
    prefix + "_USERNAME"@
}

/// The lookup key for the password of the service named by `prefix`.
pub open spec fn password_key(prefix: Seq<char>) -> Seq<char> {
    prefix + "_PASSWORD"@
}

/// The lookup keys for `prefix` that `cfg` does not hold, username key
/// first.
pub open spec fn spec_missing_keys(cfg: Seq<(Seq<char>, Seq<char>)>, prefix: Seq<char>) -> Seq<
    Seq<char>,
> {
    let u_absent = cfg_get(cfg, username_key(prefix)) is None;
    let p_absent = cfg_get(cfg, password_key(prefix)) is None;
    if u_absent && p_absent {
        seq![username_key(prefix), password_key(prefix)]
    } else if u_absent {
        seq![username_key(prefix)]
    } else if p_absent {
        seq![password_key(prefix)]
    } else {
        Seq::empty()
    }
}

/// Resolves the credentials of the service named by `prefix`: both the
/// `<prefix>_USERNAME` and `<prefix>_PASSWORD` keys must be present, or
/// resolution fails naming exactly the missing key(s). No partial
/// credentials are ever returned.
pub fn resolve(cfg: &Config, prefix: &str) -> (r: Result<Credentials, ApiError>)
    ensures
        r is Ok <==> (cfg_get(cfg@, username_key(prefix@)) is Some && cfg_get(
            cfg@,
            password_key(prefix@),
        ) is Some),
        r matches Ok(c) ==> Some(c.username@) == cfg_get(cfg@, username_key(prefix@)) && Some(
            c.password@,
        ) == cfg_get(cfg@, password_key(prefix@)),
        r matches Err(e) ==> e@ == (ErrorView::MissingCredentials {
            missing: spec_missing_keys(cfg@, prefix@),
        }),
{
    let uk = String::from_str(prefix).concat("_USERNAME");
    let pk = String::from_str(prefix).concat("_PASSWORD");
    let u = cfg.get(uk.as_str());
    let p = cfg.get(pk.as_str());
    match (u, p) {
        (Some(username), Some(password)) => Ok(
            Credentials { username: username.clone(), password: password.clone() },
        ),
        (None, Some(_)) => {
            let mut missing: Vec<String> = Vec::new();
            missing.push(uk);
            proof {
                assert(missing.deep_view() =~= spec_missing_keys(cfg@, prefix@));
            }
            Err(ApiError::MissingCredentials { missing })
        },
        (Some(_), None) => {
            let mut missing: Vec<String> = Vec::new();
            missing.push(pk);
            proof {
                assert(missing.deep_view() =~= spec_missing_keys(cfg@, prefix@));
            }
            Err(ApiError::MissingCredentials { missing })
        },
        (None, None) => {
            let mut missing: Vec<String> = Vec::new();
            missing.push(uk);
            missing.push(pk);
            proof {
                assert(missing.deep_view() =~= spec_missing_keys(cfg@, prefix@));
            }
            Err(ApiError::MissingCredentials { missing })
        },
    }
}

} // verus!
