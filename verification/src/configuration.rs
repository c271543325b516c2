//! The exporter's configuration: where the inventory is, which pools are in
//! scope, and under which names pools are shown.

use vstd::prelude::*;
use vstd::string::StringExecFns;

verus! {

#[derive(Clone, Debug)]
pub struct Configuration {
    pub horizon_api: HorizonAPIConfig,
}

#[derive(Clone, Debug)]
pub struct HorizonAPIConfig {
    pub url: String,
    pub user: String,
    pub domain: String,
    pub password: String,
    pub insecure_ssl: Option<bool>,
    pub ca_file: Option<String>,
    pub timeout: Option<u64>,
    pub only_pools: Option<Vec<String>>,
    pub skip_pools: Option<Vec<String>>,
    /// Pool identifier and display name, pair by pair; of two pairs with one
    /// identifier the first counts.
    pub pool_uuid_map: Option<Vec<(String, String)>>,
    /// The pools of `only_pools` as the pool filter reads them; a pool may
    /// stand in it more than once.
    pub only_pools_set: Vec<String>,
    /// The pools of `skip_pools` as the pool filter reads them; a pool may
    /// stand in it more than once.
    pub skip_pools_set: Vec<String>,
}

/// Why a configuration is refused.
#[derive(Clone, Debug)]
pub enum ConfigError {
    MissingUrl,
    MissingUser,
    MissingPassword,
    MissingDomain,
    /// The pool is named both in `only_pools` and in `skip_pools`.
    PoolInBoth(String),
}

/// The identifiers that `ids` lists.
pub open spec fn id_set(ids: Seq<String>) -> Set<Seq<char>> {
    Set::new(|id: Seq<char>| exists|i: int| 0 <= i < ids.len() && #[trigger] ids[i]@ == id)
}

/// The pool filter: a pool in `skip` is out of scope whatever `only` holds;
/// otherwise it is in scope if `only` is empty or holds it.
pub open spec fn pool_in_scope(pool: Seq<char>, only: Set<Seq<char>>, skip: Set<Seq<char>>) -> bool {
    !skip.contains(pool) && (only == Set::<Seq<char>>::empty() || only.contains(pool))
}

/// The table of display names as a map; of two pairs with one identifier the
/// first counts.
pub open spec fn name_table(pairs: Seq<(String, String)>) -> Map<Seq<char>, Seq<char>>
    decreases pairs.len(),
{
    if pairs.len() == 0 {
        Map::empty()
    } else {
        name_table(pairs.drop_first()).insert(pairs[0].0@, pairs[0].1@)
    }
}

/// The display name of `uuid`: what the table gives for it, else `uuid` itself.
pub open spec fn display_name(table: Option<Vec<(String, String)>>, uuid: Seq<char>) -> Seq<char> {
    match table {
        Some(pairs) => if name_table(pairs@).dom().contains(uuid) {
            name_table(pairs@)[uuid]
        } else {
            uuid
        },
        None => uuid,
    }
}

/// Whether `id` is one of `ids`.
pub fn contains_id(ids: &Vec<String>, id: &String) -> (found: bool)
    ensures
        found == id_set(ids@).contains(id@),
{
    let mut i: usize = 0;
    while i < ids.len()
        invariant
            i <= ids@.len(),
            forall|k: int| 0 <= k < i ==> #[trigger] ids@[k]@ != id@,
        decreases ids@.len() - i,
    {
        if ids[i] == *id {
            return true;
        }
        i = i + 1;
    }
    false
}

/// The pool filter, on the configured lists.
pub fn in_scope(pool_id: &str, include_set: &Vec<String>, exclude_set: &Vec<String>) -> (scope: bool)
    ensures
        scope == pool_in_scope(pool_id@, id_set(include_set@), id_set(exclude_set@)),
{
    let id = pool_id.to_string();
    if contains_id(exclude_set, &id) {
        return false;
    }
    if include_set.len() == 0 {
        assert(id_set(include_set@) =~= Set::<Seq<char>>::empty());
        return true;
    }
    assert(id_set(include_set@).contains(include_set@[0]@));
    contains_id(include_set, &id)
}

/// The display name that `pairs` gives for `uuid`, if any.
pub fn lookup_name(pairs: &Vec<(String, String)>, uuid: &String) -> (name: Option<String>)
    ensures
        name.is_some() == name_table(pairs@).dom().contains(uuid@),
        name.is_some() ==> name.unwrap()@ == name_table(pairs@)[uuid@],
{
    let mut i: usize = 0;
    assert(pairs@.skip(0) =~= pairs@);
    while i < pairs.len()
        invariant
            i <= pairs@.len(),
            name_table(pairs@).dom().contains(uuid@) == name_table(pairs@.skip(i as int)).dom().contains(
                uuid@,
            ),
            name_table(pairs@).dom().contains(uuid@) ==> name_table(pairs@)[uuid@] == name_table(
                pairs@.skip(i as int),
            )[uuid@],
        decreases pairs@.len() - i,
    {
        let ghost rest = pairs@.skip(i as int);
        assert(rest.len() > 0);
        assert(rest[0] == pairs@[i as int]);
        assert(rest.drop_first() =~= pairs@.skip(i + 1));
        if pairs[i].0 == *uuid {
            return Some(pairs[i].1.clone());
        }
        i = i + 1;
    }
    assert(pairs@.skip(i as int).len() == 0);
    None
}

/// The name under which the pool `uuid` is shown, given the table of display names.
pub fn resolve_name(table: &Option<Vec<(String, String)>>, uuid: &String) -> (name: String)
    ensures
        name@ == display_name(*table, uuid@),
{
    match table {
        Some(pairs) => match lookup_name(pairs, uuid) {
            Some(found) => found,
            None => uuid.clone(),
        },
        None => uuid.clone(),
    }
}

impl HorizonAPIConfig {
    /// The pools that alone are in scope; all are where this is empty.
    pub open spec fn only_set(&self) -> Set<Seq<char>> {
        id_set(self.only_pools_set@)
    }

    /// The pools that are out of scope.
    pub open spec fn skip_set(&self) -> Set<Seq<char>> {
        id_set(self.skip_pools_set@)
    }

    /// Whether `pool` is in scope under this configuration.
    pub open spec fn selects(&self, pool: Seq<char>) -> bool {
        pool_in_scope(pool, self.only_set(), self.skip_set())
    }

    /// The name under which the pool `uuid` is shown.
    pub fn user_defined_pool_uuid_resolve(self, uuid: &str) -> (name: String)
        ensures
            name@ == display_name(self.pool_uuid_map, uuid@),
    {
        let key = uuid.to_string();
        resolve_name(&self.pool_uuid_map, &key)
    }
}

/// The strings of an optional list; none where the list is absent.
pub open spec fn listed(list: Option<Vec<String>>) -> Seq<String> {
    match list {
        Some(ids) => ids@,
        None => Seq::empty(),
    }
}

impl ConfigError {
    /// What the error says, in words.
    pub open spec fn text(&self) -> Seq<char> {
        match self {
            ConfigError::MissingUrl => "Missing URL"@,
            ConfigError::MissingUser => "Missing user for authentication"@,
            ConfigError::MissingPassword => "Missing password for authentication"@,
            ConfigError::MissingDomain => "Missing login domain for authentication"@,
            ConfigError::PoolInBoth(pool) => "pool "@ + pool@ + " is in only_pools and skip_pools"@,
        }
    }

    /// What the error says, in words.
    pub fn message(&self) -> (msg: String)
        ensures
            msg@ == self.text(),
    {
        match self {
            ConfigError::MissingUrl => String::from_str("Missing URL"),
            ConfigError::MissingUser => String::from_str("Missing user for authentication"),
            ConfigError::MissingPassword => String::from_str("Missing password for authentication"),
            ConfigError::MissingDomain => String::from_str(
                "Missing login domain for authentication",
            ),
            ConfigError::PoolInBoth(pool) => {
                let mut msg = String::from_str("pool ");
                msg.append(pool.as_str());
                msg.append(" is in only_pools and skip_pools");
                msg
            },
        }
    }
}

impl Configuration {
    /// Where the inventory is and how to log in is given, and no pool is both
    /// wanted alone and skipped.
    pub open spec fn valid(&self) -> bool {
        &&& self.horizon_api.url@.len() > 0
        &&& self.horizon_api.user@.len() > 0
        &&& self.horizon_api.password@.len() > 0
        &&& self.horizon_api.domain@.len() > 0
        &&& self.horizon_api.only_set().disjoint(self.horizon_api.skip_set())
    }

    /// The pool at `i` in the list of wanted pools is skipped too, and none before it is.
    pub open spec fn first_conflict(&self, i: int) -> bool {
        &&& 0 <= i < self.horizon_api.only_pools_set@.len()
        &&& self.horizon_api.skip_set().contains(self.horizon_api.only_pools_set@[i]@)
        &&& forall|k: int|
            0 <= k < i ==> !self.horizon_api.skip_set().contains(
                #[trigger] self.horizon_api.only_pools_set@[k]@,
            )
    }

    /// `error` names the first thing that is wrong with this configuration: the
    /// address, the user, the password and the domain are looked at in this
    /// order, then the pool lists.
    pub open spec fn fault(&self, error: ConfigError) -> bool {
        match error {
            ConfigError::MissingUrl => self.horizon_api.url@.len() == 0,
            ConfigError::MissingUser => {
                &&& self.horizon_api.url@.len() > 0
                &&& self.horizon_api.user@.len() == 0
            },
            ConfigError::MissingPassword => {
                &&& self.horizon_api.url@.len() > 0
                &&& self.horizon_api.user@.len() > 0
                &&& self.horizon_api.password@.len() == 0
            },
            ConfigError::MissingDomain => {
                &&& self.horizon_api.url@.len() > 0
                &&& self.horizon_api.user@.len() > 0
                &&& self.horizon_api.password@.len() > 0
                &&& self.horizon_api.domain@.len() == 0
            },
            ConfigError::PoolInBoth(pool) => {
                &&& self.horizon_api.url@.len() > 0
                &&& self.horizon_api.user@.len() > 0
                &&& self.horizon_api.password@.len() > 0
                &&& self.horizon_api.domain@.len() > 0
                &&& exists|i: int|
                    #![trigger self.first_conflict(i)]
                    self.first_conflict(i) && self.horizon_api.only_pools_set@[i]@ == pool@
            },
        }
    }
}

/// Accepts a configuration that is valid, and names the first fault of one that is not.
pub fn validate_config(cfg: &Configuration) -> (checked: Result<(), ConfigError>)
    ensures
        checked.is_ok() == cfg.valid(),
        match checked {
            Ok(_) => true,
            Err(error) => cfg.fault(error),
        },
{
    if cfg.horizon_api.url.as_str().is_empty() {
        return Err(ConfigError::MissingUrl);
    }
    if cfg.horizon_api.user.as_str().is_empty() {
        return Err(ConfigError::MissingUser);
    }
    if cfg.horizon_api.password.as_str().is_empty() {
        return Err(ConfigError::MissingPassword);
    }
    if cfg.horizon_api.domain.as_str().is_empty() {
        return Err(ConfigError::MissingDomain);
    }
    let mut i: usize = 0;
    while i < cfg.horizon_api.only_pools_set.len()
        invariant
            i <= cfg.horizon_api.only_pools_set@.len(),
            cfg.horizon_api.url@.len() > 0,
            cfg.horizon_api.user@.len() > 0,
            cfg.horizon_api.password@.len() > 0,
            cfg.horizon_api.domain@.len() > 0,
            forall|k: int|
                0 <= k < i ==> !cfg.horizon_api.skip_set().contains(
                    #[trigger] cfg.horizon_api.only_pools_set@[k]@,
                ),
        decreases cfg.horizon_api.only_pools_set@.len() - i,
    {
        if contains_id(&cfg.horizon_api.skip_pools_set, &cfg.horizon_api.only_pools_set[i]) {
            let pool = cfg.horizon_api.only_pools_set[i].clone();
            assert(cfg.first_conflict(i as int));
            assert(cfg.horizon_api.only_set().contains(pool@));
            return Err(ConfigError::PoolInBoth(pool));
        }
        i = i + 1;
    }
    assert forall|id: Seq<char>| cfg.horizon_api.only_set().contains(id) implies !cfg.horizon_api.skip_set().contains(
        id,
    ) by {
        let k = choose|k: int|
            0 <= k < cfg.horizon_api.only_pools_set@.len()
                && #[trigger] cfg.horizon_api.only_pools_set@[k]@ == id;
        assert(!cfg.horizon_api.skip_set().contains(cfg.horizon_api.only_pools_set@[k]@));
    }
    Ok(())
}

fn copy_ids(list: &Option<Vec<String>>) -> (ids: Vec<String>)
    ensures
        id_set(ids@) == id_set(listed(*list)),
{
    let mut ids: Vec<String> = Vec::new();
    match list {
        Some(given) => {
            let mut i: usize = 0;
            while i < given.len()
                invariant
                    i <= given@.len(),
                    ids@.len() == i,
                    forall|k: int| 0 <= k < i ==> #[trigger] ids@[k]@ == given@[k]@,
                decreases given@.len() - i,
            {
                ids.push(given[i].clone());
                i = i + 1;
            }
            assert forall|id: Seq<char>| id_set(ids@).contains(id) == id_set(given@).contains(id) by {
                if id_set(ids@).contains(id) {
                    let k = choose|k: int| 0 <= k < ids@.len() && #[trigger] ids@[k]@ == id;
                    assert(given@[k]@ == id);
                }
                if id_set(given@).contains(id) {
                    let k = choose|k: int| 0 <= k < given@.len() && #[trigger] given@[k]@ == id;
                    assert(ids@[k]@ == id);
                }
            }
            assert(id_set(ids@) =~= id_set(given@));
        },
        None => {
            assert(id_set(ids@) =~= id_set(Seq::<String>::empty()));
        },
    }
    ids
}

/// `raw` with the two pool sets filled from the lists `only_pools` and `skip_pools`.
pub open spec fn with_pool_sets(raw: Configuration, built: Configuration) -> bool {
    &&& built.horizon_api.only_set() == id_set(listed(raw.horizon_api.only_pools))
    &&& built.horizon_api.skip_set() == id_set(listed(raw.horizon_api.skip_pools))
    &&& built.horizon_api == (HorizonAPIConfig {
        only_pools_set: built.horizon_api.only_pools_set,
        skip_pools_set: built.horizon_api.skip_pools_set,
        ..raw.horizon_api
    })
}

/// Completes a configuration as it was read: fills the two pool sets from the
/// lists and validates the result. The first component is the completed
/// configuration, the second says whether it may be used.
pub fn complete_config(raw: Configuration) -> (done: (Configuration, Result<(), ConfigError>))
    ensures
        with_pool_sets(raw, done.0),
        done.1.is_ok() == done.0.valid(),
        match done.1 {
            Ok(_) => true,
            Err(error) => done.0.fault(error),
        },
{
    let mut config = raw;
    let only = copy_ids(&config.horizon_api.only_pools);
    let skip = copy_ids(&config.horizon_api.skip_pools);
    config.horizon_api.only_pools_set = only;
    config.horizon_api.skip_pools_set = skip;
    let checked = validate_config(&config);
    (config, checked)
}

} // verus!
