//! The oracle program's accounts: an oracle configuration with the list of
//! authorities allowed to feed it, and the oracle data they feed.
use vstd::prelude::*;
use crate::error::ErrorCode;
use crate::pubkey::{Pubkey, keys_view, find_program_address, monitor_id, monitor_id_spec, program_address, address_of, seeds_view};
use crate::seeds::{oracle_config_seed, oracle_config_seed_bytes};
use vstd::string::StrSliceExecFns;

verus! {

/// An oracle configuration account.
#[derive(Clone, Debug)]
pub struct OracleConfig {
    pub name: String,
    pub description: String,
    pub total_phases: u8,
    pub authority_pubkeys: Vec<Pubkey>,
    pub admin: Pubkey,
    pub bump: u8,
}

/// The mathematical content of an oracle configuration.
pub struct OracleConfigView {
    pub name: Seq<char>,
    pub description: Seq<char>,
    pub total_phases: u8,
    pub authorities: Seq<Seq<u8>>,
    pub admin: Seq<u8>,
    pub bump: u8,
}

impl View for OracleConfig {
    type V = OracleConfigView;

    open spec fn view(&self) -> OracleConfigView {
        OracleConfigView {
            name: self.name@,
            description: self.description@,
            total_phases: self.total_phases,
            authorities: keys_view(self.authority_pubkeys@),
            admin: self.admin@,
            bump: self.bump,
        }
    }
}

/// The most authorities a configuration can come to hold: one is added only
/// while at most four are held.
pub open spec fn max_authorities() -> nat {
    5
}

impl OracleConfigView {
    /// `key` is one of the configuration's authorities.
    pub open spec fn holds_authority(self, key: Seq<u8>) -> bool {
        self.authorities.contains(key)
    }

    /// The invariant that adding and removing authorities keep: no authority
    /// is listed twice, and at most five are listed.
    pub open spec fn well_formed(self) -> bool {
        &&& self.authorities.no_duplicates()
        &&& self.authorities.len() <= max_authorities()
    }

    /// The configuration with another authority list.
    pub open spec fn with_authorities(self, authorities: Seq<Seq<u8>>) -> OracleConfigView {
        OracleConfigView { authorities, ..self }
    }
}

/// The index of the first occurrence of `key` in `keys`.
pub open spec fn first_index_of(keys: Seq<Seq<u8>>, key: Seq<u8>) -> int {
    choose|i: int|
        0 <= i < keys.len() && keys[i] == key && forall|j: int| 0 <= j < i ==> keys[j] != key
}

/// What adding `key` as an authority, at the request of `user`, does to a
/// configuration: only the admin may; a key already held changes nothing;
/// a new key is appended while at most four are held.
pub open spec fn add_authority_spec(c: OracleConfigView, user: Seq<u8>, key: Seq<u8>) -> (Result<(), ErrorCode>, OracleConfigView) {
    if user != c.admin {
        (Err(ErrorCode::Unauthorized), c)
    } else if c.holds_authority(key) {
        (Ok(()), c)
    } else if c.authorities.len() > 4 {
        (Err(ErrorCode::TooManyAuthorities), c)
    } else {
        (Ok(()), c.with_authorities(c.authorities.push(key)))
    }
}

/// What removing `key` from the authorities, at the request of `user`,
/// does to a configuration: only the admin may, the key must be held, and
/// its first occurrence is removed.
pub open spec fn remove_authority_spec(c: OracleConfigView, user: Seq<u8>, key: Seq<u8>) -> (Result<(), ErrorCode>, OracleConfigView) {
    if user != c.admin {
        (Err(ErrorCode::Unauthorized), c)
    } else if !c.holds_authority(key) {
        (Err(ErrorCode::AuthorityNotFound), c)
    } else {
        (Ok(()), c.with_authorities(c.authorities.remove(first_index_of(c.authorities, key))))
    }
}

proof fn lemma_first_index_of(keys: Seq<Seq<u8>>, key: Seq<u8>, i: int)
    requires
        0 <= i < keys.len(),
        keys[i] == key,
        forall|j: int| 0 <= j < i ==> keys[j] != key,
    ensures
        first_index_of(keys, key) == i,
{
    let k = first_index_of(keys, key);
    assert(0 <= k < keys.len() && keys[k] == key && forall|j: int| 0 <= j < k ==> keys[j] != key);
    if k < i {
        assert(keys[k] != key);
    }
    if i < k {
        assert(keys[i] != key);
    }
}

impl OracleConfig {
    /// Whether `pubkey` is one of the configuration's authorities.
    pub fn has_authority(&self, pubkey: &Pubkey) -> (r: bool)
        ensures
            r == self@.holds_authority(pubkey@),
    {
        let n = self.authority_pubkeys.len();
        let mut i: usize = 0;
        while i < n
            invariant
                n == self.authority_pubkeys.len(),
                0 <= i <= n,
                forall|j: int| 0 <= j < i ==> self@.authorities[j] != pubkey@,
            decreases n - i,
        {
            if self.authority_pubkeys[i].key_eq(pubkey) {
                assert(self@.authorities[i as int] == pubkey@);
                return true;
            }
            i = i + 1;
        }
        false
    }

    /// Adds `pubkey` to the authorities at the request of `user`.
    pub fn add_authority(&mut self, user: Pubkey, pubkey: Pubkey) -> (r: Result<(), ErrorCode>)
        ensures
            (r, final(self)@) == add_authority_spec(old(self)@, user@, pubkey@),
    {
        if !user.key_eq(&self.admin) {
            return Err(ErrorCode::Unauthorized);
        }
        if !self.has_authority(&pubkey) {
            if self.authority_pubkeys.len() > 4 {
                return Err(ErrorCode::TooManyAuthorities);
            }
            self.authority_pubkeys.push(pubkey);
            assert(self@.authorities =~= old(self)@.authorities.push(pubkey@));
        }
        Ok(())
    }

    /// Removes `pubkey` from the authorities at the request of `user`.
    pub fn remove_authority(&mut self, user: Pubkey, pubkey: Pubkey) -> (r: Result<(), ErrorCode>)
        ensures
            (r, final(self)@) == remove_authority_spec(old(self)@, user@, pubkey@),
    {
        if !user.key_eq(&self.admin) {
            return Err(ErrorCode::Unauthorized);
        }
        if !self.has_authority(&pubkey) {
            return Err(ErrorCode::AuthorityNotFound);
        }
        let n = self.authority_pubkeys.len();
        let mut i: usize = 0;
        while i < n
            invariant
                n == self.authority_pubkeys.len(),
                *self == *old(self),
                user@ == old(self)@.admin,
                self@.holds_authority(pubkey@),
                0 <= i <= n,
                forall|j: int| 0 <= j < i ==> self@.authorities[j] != pubkey@,
            decreases n - i,
        {
            if self.authority_pubkeys[i].key_eq(&pubkey) {
                proof {
                    lemma_first_index_of(self@.authorities, pubkey@, i as int);
                }
                let ghost before = self.authority_pubkeys@;
                self.authority_pubkeys.remove(i);
                assert(self@.authorities =~= old(self)@.authorities.remove(i as int));
                assert(self@ == old(self)@.with_authorities(
                    old(self)@.authorities.remove(first_index_of(old(self)@.authorities, pubkey@))));
                return Ok(());
            }
            i = i + 1;
        }
        Ok(())
    }
}

/// An oracle data account: the latest value an authority fed, when it was
/// fed (time and slot), and when the round before it was fed, so that the
/// previous round can be looked up.
#[derive(Clone, Copy, Debug, PartialEq, Eq)]
pub struct OracleData {
    pub config: Pubkey,
    pub phase: u8,
    pub raw_data: u64,
    pub decimals: u8,
    pub previous_timestamp: u64,
    pub timestamp: u64,
    pub slot: u64,
    pub bump: u8,
}

// ---------------------------------------------------------------------
// Laws of the authority list
// ---------------------------------------------------------------------

/// A key that the admin added is held afterwards, and every authority held
/// before is still held.
pub proof fn law_added_authority_is_held(c: OracleConfigView, user: Seq<u8>, key: Seq<u8>)
    ensures
        add_authority_spec(c, user, key).0 is Ok ==> add_authority_spec(c, user, key).1.holds_authority(key),
        forall|k: Seq<u8>| c.holds_authority(k) ==> #[trigger] add_authority_spec(c, user, key).1.holds_authority(k),
{
    let n = add_authority_spec(c, user, key).1;
    if user == c.admin && !c.holds_authority(key) && c.authorities.len() <= 4 {
        assert(n.authorities[c.authorities.len() as int] == key);
        assert forall|k: Seq<u8>| c.holds_authority(k) implies #[trigger] n.holds_authority(k) by {
            let i = choose|i: int| 0 <= i < c.authorities.len() && c.authorities[i] == k;
            assert(n.authorities[i] == k);
        }
    }
}

/// A removed key is no longer held by a well-formed configuration.
pub proof fn law_removed_authority_is_not_held(c: OracleConfigView, user: Seq<u8>, key: Seq<u8>)
    requires
        c.well_formed(),
    ensures
        remove_authority_spec(c, user, key).0 is Ok ==> !remove_authority_spec(c, user, key).1.holds_authority(key),
{
    if user == c.admin && c.holds_authority(key) {
        let i = choose|i: int| 0 <= i < c.authorities.len() && c.authorities[i] == key;
        lemma_first_index_of(c.authorities, key, i);
        let r = c.authorities.remove(i);
        assert forall|j: int| 0 <= j < r.len() implies r[j] != key by {
            if j < i {
                assert(r[j] == c.authorities[j]);
            } else {
                assert(r[j] == c.authorities[j + 1]);
            }
        }
    }
}

/// Adding and removing authorities keep a configuration well formed.
pub proof fn law_authority_changes_keep_well_formed(c: OracleConfigView, user: Seq<u8>, key: Seq<u8>)
    requires
        c.well_formed(),
    ensures
        add_authority_spec(c, user, key).1.well_formed(),
        remove_authority_spec(c, user, key).1.well_formed(),
{
    if user == c.admin && !c.holds_authority(key) && c.authorities.len() <= 4 {
        let a = c.authorities.push(key);
        assert forall|i: int, j: int| 0 <= i < a.len() && 0 <= j < a.len() && i != j implies a[i] != a[j] by {
            if i == c.authorities.len() {
                assert(c.authorities[j] != key);
            } else if j == c.authorities.len() {
                assert(c.authorities[i] != key);
            }
        }
    }
    if user == c.admin && c.holds_authority(key) {
        let i = choose|i: int| 0 <= i < c.authorities.len() && c.authorities[i] == key;
        lemma_first_index_of(c.authorities, key, i);
        let r = c.authorities.remove(i);
        assert forall|p: int, q: int| 0 <= p < r.len() && 0 <= q < r.len() && p != q implies r[p] != r[q] by {
            let pp = if p < i { p } else { p + 1 };
            let qq = if q < i { q } else { q + 1 };
            assert(r[p] == c.authorities[pp]);
            assert(r[q] == c.authorities[qq]);
        }
    }
}

/// Removing a key that the admin has just added gives back the configuration
/// as it was.
pub proof fn law_remove_undoes_add(c: OracleConfigView, admin: Seq<u8>, key: Seq<u8>)
    requires
        admin == c.admin,
        !c.holds_authority(key),
        c.authorities.len() <= 4,
    ensures
        add_authority_spec(c, admin, key).0 is Ok,
        remove_authority_spec(add_authority_spec(c, admin, key).1, admin, key)
            == (Ok::<(), ErrorCode>(()), c),
{
    let a = add_authority_spec(c, admin, key).1;
    let n = c.authorities.len() as int;
    assert(a.authorities[n] == key);
    assert(a.holds_authority(key));
    assert forall|j: int| 0 <= j < n implies a.authorities[j] != key by {
        assert(a.authorities[j] == c.authorities[j]);
    }
    lemma_first_index_of(a.authorities, key, n);
    assert(a.authorities.remove(n) =~= c.authorities);
}

/// A request by anyone but the admin is refused and changes nothing.
pub proof fn law_only_admin_changes_authorities(c: OracleConfigView, user: Seq<u8>, key: Seq<u8>)
    requires
        user != c.admin,
    ensures
        add_authority_spec(c, user, key) == (Err::<(), ErrorCode>(ErrorCode::Unauthorized), c),
        remove_authority_spec(c, user, key) == (Err::<(), ErrorCode>(ErrorCode::Unauthorized), c),
{
}

/// The address of the configuration named `name` under the oracle program.
pub open spec fn oracle_config_address(name: Seq<char>) -> Option<Seq<u8>> {
    address_of(program_address(seq![oracle_config_seed(), vstd::utf8::encode_utf8(name)], monitor_id_spec()))
}

/// Finds the address of the configuration named `name`.
pub fn find_oracle_config_address(name: &str) -> (r: Option<Pubkey>)
    ensures
        match r {
            Some(k) => oracle_config_address(name@) == Some(k@),
            None => oracle_config_address(name@) is None,
        },
{
    let mut seeds: Vec<Vec<u8>> = Vec::new();
    seeds.push(oracle_config_seed_bytes());
    seeds.push(name.as_bytes_vec());
    assert(seeds_view(seeds@) =~= seq![oracle_config_seed(), vstd::utf8::encode_utf8(name@)]);
    match find_program_address(&seeds, &monitor_id()) {
        Some((k, _)) => Some(k),
        None => None,
    }
}

} // verus!
