use std::collections::HashMap;

use vstd::prelude::*;

use crate::records::LogEvent;
use crate::types::Env;

verus! {

/// One entry of a subscription's append-only log.
#[derive(Debug)]
pub struct LogEntry {
    pub sub_id: u64,
    pub event: LogEvent,
    pub timestamp: u64,
    pub data: String,
}

/// The logging collaborator: an append-only log per subscription id.
pub struct SubscriptionLoggingContract {
    pub logs: HashMap<u64, Vec<LogEntry>>,
}

impl LogEntry {
    pub fn duplicate(&self) -> (r: LogEntry)
        ensures
            r == *self,
    {
        LogEntry {
            sub_id: self.sub_id,
            event: self.event,
            timestamp: self.timestamp,
            data: self.data.clone(),
        }
    }
}

impl SubscriptionLoggingContract {
    /// The log of every subscription id; absent ids have an empty log.
    pub open spec fn log_of(&self, sub_id: u64) -> Seq<LogEntry> {
        if self.logs@.contains_key(sub_id) {
            self.logs@[sub_id]@
        } else {
            Seq::empty()
        }
    }

    pub fn new() -> (r: SubscriptionLoggingContract)
        ensures
            forall|id: u64| #[trigger] r.log_of(id).len() == 0,
    {
        SubscriptionLoggingContract { logs: HashMap::new() }
    }

    /// Appends an entry, stamped with the invocation's time, to the log of
    /// `sub_id`.
    pub fn record_log(&mut self, env: &Env, sub_id: u64, event: LogEvent, data: String)
        ensures
            final(self).log_of(sub_id) == old(self).log_of(sub_id).push(
                LogEntry { sub_id, event, timestamp: env.timestamp, data },
            ),
            forall|id: u64| id != sub_id ==> #[trigger] final(self).log_of(id) == old(self).log_of(id),
    {
        let mut entries = match self.logs.remove(&sub_id) {
            Some(v) => v,
            None => Vec::new(),
        };
        entries.push(LogEntry { sub_id, event, timestamp: env.timestamp, data });
        self.logs.insert(sub_id, entries);
    }

    /// The log of `sub_id`, oldest entry first.
    pub fn get_logs(&self, sub_id: u64) -> (r: Vec<LogEntry>)
        ensures
            r@ == self.log_of(sub_id),
    {
        let mut out: Vec<LogEntry> = Vec::new();
        match self.logs.get(&sub_id) {
            Some(entries) => {
                let mut i: usize = 0;
                while i < entries.len()
                    invariant
                        0 <= i <= entries@.len(),
                        out@ == entries@.subrange(0, i as int),
                    decreases entries@.len() - i,
                {
                    out.push(entries[i].duplicate());
                    i = i + 1;
                    assert(out@ =~= entries@.subrange(0, i as int));
                }
                assert(out@ =~= entries@);
            },
            None => {},
        }
        out
    }
}

} // verus!
