use vstd::prelude::*;
use std::collections::HashMap;
use crate::error::PlayError;
use crate::policy::DomainPolicy;
use crate::query::{same_query, QueryType};
use crate::resolver::{resolution_ok, resolve_query, url_host, Resolution};

verus! {

broadcast use vstd::std_specs::hash::group_hash_axioms;

/// Log of the queries resolved for a guild, kept so that a later session can
/// queue them again without resolving them anew.
pub struct GuildStoredQueue {
    pub queue: Vec<QueryType>,
    pub continue_play: bool,
}

impl GuildStoredQueue {
    /// An empty log.
    pub fn new() -> (r: GuildStoredQueue)
        ensures
            r.queue@.len() == 0,
            !r.continue_play,
    {
        GuildStoredQueue { queue: Vec::new(), continue_play: false }
    }

    /// Appends a resolved query and marks the log for continued play.
    pub fn record(&mut self, query: QueryType)
        ensures
            final(self).queue@ == old(self).queue@.push(query),
            final(self).continue_play,
    {
        self.queue.push(query);
        self.continue_play = true;
    }
}

/// Per-guild state, keyed by guild id: domain policies and query logs. Each
/// entry is created empty on first use and never removed.
pub struct GuildStore {
    pub settings: HashMap<u64, DomainPolicy>,
    pub stored_queues: HashMap<u64, GuildStoredQueue>,
}

/// The log of `guild` in `m`, empty when it has none yet.
pub open spec fn log_of(m: Map<u64, GuildStoredQueue>, guild: u64) -> Seq<QueryType> {
    if m.contains_key(guild) {
        m[guild].queue@
    } else {
        Seq::empty()
    }
}

impl GuildStore {
    /// A store with no guild in it.
    pub fn new() -> (r: GuildStore)
        ensures
            r.settings@ == Map::<u64, DomainPolicy>::empty(),
            r.stored_queues@ == Map::<u64, GuildStoredQueue>::empty(),
    {
        GuildStore { settings: HashMap::new(), stored_queues: HashMap::new() }
    }

    /// Creates the guild's policy, with empty lists, unless it exists.
    pub fn ensure_policy(&mut self, guild: u64)
        ensures
            final(self).stored_queues@ == old(self).stored_queues@,
            old(self).settings@.contains_key(guild) ==> final(self).settings@ == old(self).settings@,
            !old(self).settings@.contains_key(guild) ==> {
                &&& final(self).settings@.dom() == old(self).settings@.dom().insert(guild)
                &&& forall|k: u64| k != guild && #[trigger] old(self).settings@.contains_key(k)
                    ==> final(self).settings@[k] == old(self).settings@[k]
                &&& final(self).settings@[guild].allowed_domains@.len() == 0
                &&& final(self).settings@[guild].banned_domains@.len() == 0
            },
    {
        if !self.settings.contains_key(&guild) {
            self.settings.insert(guild, DomainPolicy::new());
        }
    }

    /// Appends `query` to the guild's log, creating the log on first use.
    pub fn record_query(&mut self, guild: u64, query: QueryType)
        ensures
            final(self).settings@ == old(self).settings@,
            final(self).stored_queues@.dom() == old(self).stored_queues@.dom().insert(guild),
            forall|k: u64| k != guild && #[trigger] old(self).stored_queues@.contains_key(k)
                ==> final(self).stored_queues@[k] == old(self).stored_queues@[k],
            log_of(final(self).stored_queues@, guild) == log_of(old(self).stored_queues@, guild).push(
                query,
            ),
            final(self).stored_queues@[guild].continue_play,
    {
        let mut log = match self.stored_queues.remove(&guild) {
            Some(l) => l,
            None => GuildStoredQueue::new(),
        };
        log.record(query);
        self.stored_queues.insert(guild, log);
    }

    /// Resolves `raw` under the guild's policy, created empty on first use. A
    /// resolved query is appended to the guild's log; a share link for the
    /// streaming-service client, or an error, leaves the log as it was.
    pub fn resolve_for_guild(&mut self, guild: u64, raw: &str, session: bool) -> (r: Result<
        Resolution,
        PlayError,
    >)
        ensures
            final(self).settings@.contains_key(guild),
            old(self).settings@.contains_key(guild) ==> final(self).settings@ == old(self).settings@,
            !old(self).settings@.contains_key(guild) ==> final(self).settings@[guild].allowed_domains@.len()
                == 0 && final(self).settings@[guild].banned_domains@.len() == 0,
            resolution_ok(r, raw@, url_host(raw@), final(self).settings@[guild], session),
            match r {
                Ok(Resolution::Query(q)) => {
                    let before = log_of(old(self).stored_queues@, guild);
                    let after = log_of(final(self).stored_queues@, guild);
                    &&& after.len() == before.len() + 1
                    &&& after.drop_last() == before
                    &&& same_query(after.last(), q)
                },
                _ => final(self).stored_queues@ == old(self).stored_queues@,
            },
    {
        self.ensure_policy(guild);
        let r = match self.settings.get(&guild) {
            Some(p) => resolve_query(raw, p, session),
            None => resolve_query(raw, &DomainPolicy::new(), session),
        };
        match &r {
            Ok(Resolution::Query(q)) => {
                let c = q.clone();
                let ghost before = log_of(self.stored_queues@, guild);
                self.record_query(guild, c);
                assert(before.push(c).drop_last() =~= before);
            },
            _ => {},
        }
        r
    }
}

} // verus!
