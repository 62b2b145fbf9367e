//! The registry's side of the protocol: the directory of actor names.
//!
//! Each name has at most one entry, which records the manager that owns it,
//! the endpoint it can be reached at, and when the owner was last heard of.
//! Whether an owner is online is worked out from that time whenever someone
//! asks; nothing is ever swept away.

use crate::messages::{
    Heartbeat, HeartbeatAck, LookupActor, LookupResult, Message, MessageView, RegisterActor,
    RegistrationFailed, RegistrationOk, UnregisterActor,
};
use crate::text::same;
use crate::transport::OFFLINE_THRESHOLD_MS;
use vstd::prelude::*;
use vstd::string::*;

verus! {

/// What the directory records under an actor name.
pub struct EntryView {
    pub manager_id: Seq<char>,
    pub actor_endpoint: Seq<char>,
    /// When the registration or the owner's last heartbeat arrived, in
    /// milliseconds of the registry's clock.
    pub last_heartbeat_ts: u64,
}

/// Whether an owner last heard of at `last_heartbeat_ts` counts as online at `now_ms`.
pub open spec fn is_online(last_heartbeat_ts: u64, now_ms: u64) -> bool {
    now_ms - last_heartbeat_ts < OFFLINE_THRESHOLD_MS
}

/// Whether `actor_name` can be registered at `now_ms`: it is free, or its
/// owner is offline.
pub open spec fn can_register(
    directory: Map<Seq<char>, EntryView>,
    actor_name: Seq<char>,
    now_ms: u64,
) -> bool {
    !directory.contains_key(actor_name) || !is_online(
        directory[actor_name].last_heartbeat_ts,
        now_ms,
    )
}

/// The directory after a registration request that arrives at `now_ms`.
pub open spec fn registered(
    directory: Map<Seq<char>, EntryView>,
    manager_id: Seq<char>,
    actor_name: Seq<char>,
    actor_endpoint: Seq<char>,
    now_ms: u64,
) -> Map<Seq<char>, EntryView> {
    if can_register(directory, actor_name, now_ms) {
        directory.insert(
            actor_name,
            EntryView { manager_id, actor_endpoint, last_heartbeat_ts: now_ms },
        )
    } else {
        directory
    }
}

/// The directory after `actor_name` is unregistered.
pub open spec fn unregistered(directory: Map<Seq<char>, EntryView>, actor_name: Seq<char>) -> Map<
    Seq<char>,
    EntryView,
> {
    directory.remove(actor_name)
}

/// The directory after a heartbeat of `manager_id` that arrives at `now_ms`:
/// every entry of that manager is refreshed.
pub open spec fn refreshed(
    directory: Map<Seq<char>, EntryView>,
    manager_id: Seq<char>,
    now_ms: u64,
) -> Map<Seq<char>, EntryView> {
    Map::new(
        |name: Seq<char>| directory.contains_key(name),
        |name: Seq<char>|
            if directory[name].manager_id == manager_id {
                EntryView { last_heartbeat_ts: now_ms, ..directory[name] }
            } else {
                directory[name]
            },
    )
}

/// The answer to a lookup of `actor_name` at `now_ms`.
pub open spec fn looked_up(
    directory: Map<Seq<char>, EntryView>,
    actor_name: Seq<char>,
    now_ms: u64,
) -> MessageView {
    if directory.contains_key(actor_name) {
        MessageView::LookupResult {
            actor_name,
            endpoint: Some(directory[actor_name].actor_endpoint),
            online: is_online(directory[actor_name].last_heartbeat_ts, now_ms),
        }
    } else {
        MessageView::LookupResult { actor_name, endpoint: None, online: false }
    }
}

/// The answer to a registration request that arrives at `now_ms`.
pub open spec fn registration_reply(
    directory: Map<Seq<char>, EntryView>,
    actor_name: Seq<char>,
    now_ms: u64,
) -> MessageView {
    if can_register(directory, actor_name, now_ms) {
        MessageView::RegistrationOk { actor_name }
    } else {
        MessageView::RegistrationFailed { actor_name, reason: "name already registered"@ }
    }
}

/// The directory after a message that arrives at `now_ms`. Only the four
/// requests act on it, and a lookup only reads.
pub open spec fn applied(
    directory: Map<Seq<char>, EntryView>,
    message: MessageView,
    now_ms: u64,
) -> Map<Seq<char>, EntryView> {
    match message {
        MessageView::RegisterActor { manager_id, actor_name, actor_endpoint } => registered(
            directory,
            manager_id,
            actor_name,
            actor_endpoint,
            now_ms,
        ),
        MessageView::UnregisterActor { actor_name } => unregistered(directory, actor_name),
        MessageView::Heartbeat { manager_id, .. } => refreshed(directory, manager_id, now_ms),
        _ => directory,
    }
}

/// The reply to a message that arrives at `now_ms`: a registration, a lookup
/// and a heartbeat are answered; an unregistration is carried out in
/// silence, and a message that is no request is passed over.
pub open spec fn reply_to(
    directory: Map<Seq<char>, EntryView>,
    message: MessageView,
    now_ms: u64,
) -> Option<MessageView> {
    match message {
        MessageView::RegisterActor { actor_name, .. } => Some(
            registration_reply(directory, actor_name, now_ms),
        ),
        MessageView::LookupActor { actor_name } => Some(looked_up(directory, actor_name, now_ms)),
        MessageView::Heartbeat { .. } => Some(MessageView::HeartbeatAck),
        _ => None,
    }
}

/// One row of the directory: a name and what is recorded under it.
pub struct Row {
    pub actor_name: Seq<char>,
    pub entry: EntryView,
}

/// No name heads two rows.
pub open spec fn distinct_names(rows: Seq<Row>) -> bool {
    forall|i: int, j: int|
        0 <= i < rows.len() && 0 <= j < rows.len() && i != j ==> rows[i].actor_name
            != rows[j].actor_name
}

/// Whether `name` heads the row at `i`.
pub open spec fn heads(rows: Seq<Row>, name: Seq<char>, i: int) -> bool {
    0 <= i < rows.len() && rows[i].actor_name == name
}

/// The directory that the rows spell out.
pub open spec fn table(rows: Seq<Row>) -> Map<Seq<char>, EntryView> {
    Map::new(
        |name: Seq<char>| exists|i: int| heads(rows, name, i),
        |name: Seq<char>| rows[choose|i: int| heads(rows, name, i)].entry,
    )
}

proof fn lemma_table_row(rows: Seq<Row>, i: int)
    requires
        distinct_names(rows),
        0 <= i < rows.len(),
    ensures
        table(rows).contains_key(rows[i].actor_name),
        table(rows)[rows[i].actor_name] == rows[i].entry,
{
    let name = rows[i].actor_name;
    assert(heads(rows, name, i));
    let j = choose|j: int| heads(rows, name, j);
    assert(j == i);
}

proof fn lemma_table_push(rows: Seq<Row>, row: Row)
    requires
        distinct_names(rows),
        forall|i: int| 0 <= i < rows.len() ==> rows[i].actor_name != row.actor_name,
    ensures
        distinct_names(rows.push(row)),
        table(rows.push(row)) == table(rows).insert(row.actor_name, row.entry),
{
    let after = rows.push(row);
    assert(distinct_names(after));
    assert forall|name: Seq<char>|
        table(after).contains_key(name) <==> #[trigger] table(rows).insert(
            row.actor_name,
            row.entry,
        ).contains_key(name) by {
        if table(after).contains_key(name) {
            let i = choose|i: int| heads(after, name, i);
            if i < rows.len() {
                assert(heads(rows, name, i));
            }
        }
        if table(rows).contains_key(name) {
            let i = choose|i: int| heads(rows, name, i);
            assert(heads(after, name, i));
        }
        if name == row.actor_name {
            assert(heads(after, name, rows.len() as int));
        }
    }
    assert forall|name: Seq<char>| table(after).contains_key(name) implies #[trigger] table(
        after,
    )[name] == table(rows).insert(row.actor_name, row.entry)[name] by {
        let i = choose|i: int| heads(after, name, i);
        lemma_table_row(after, i);
        if i < rows.len() {
            lemma_table_row(rows, i);
        }
    }
    assert(table(after) =~= table(rows).insert(row.actor_name, row.entry));
}

proof fn lemma_table_update(rows: Seq<Row>, i: int, entry: EntryView)
    requires
        distinct_names(rows),
        0 <= i < rows.len(),
    ensures
        distinct_names(rows.update(i, Row { actor_name: rows[i].actor_name, entry })),
        table(rows.update(i, Row { actor_name: rows[i].actor_name, entry })) == table(rows).insert(
            rows[i].actor_name,
            entry,
        ),
{
    let name_i = rows[i].actor_name;
    let after = rows.update(i, Row { actor_name: name_i, entry });
    assert(distinct_names(after)) by {
        assert forall|a: int, b: int|
            0 <= a < after.len() && 0 <= b < after.len() && a != b implies after[a].actor_name
            != after[b].actor_name by {
            assert(after[a].actor_name == rows[a].actor_name);
            assert(after[b].actor_name == rows[b].actor_name);
        }
    }
    assert forall|name: Seq<char>|
        table(after).contains_key(name) <==> #[trigger] table(rows).insert(
            name_i,
            entry,
        ).contains_key(name) by {
        if table(after).contains_key(name) {
            let k = choose|k: int| heads(after, name, k);
            assert(heads(rows, name, k));
        }
        if table(rows).contains_key(name) {
            let k = choose|k: int| heads(rows, name, k);
            assert(heads(after, name, k));
        }
        if name == name_i {
            assert(heads(after, name, i));
        }
    }
    assert forall|name: Seq<char>| table(after).contains_key(name) implies #[trigger] table(
        after,
    )[name] == table(rows).insert(name_i, entry)[name] by {
        let k = choose|k: int| heads(after, name, k);
        lemma_table_row(after, k);
        lemma_table_row(rows, k);
    }
    assert(table(after) =~= table(rows).insert(name_i, entry));
}

proof fn lemma_table_remove(rows: Seq<Row>, i: int)
    requires
        distinct_names(rows),
        0 <= i < rows.len(),
    ensures
        distinct_names(rows.remove(i)),
        table(rows.remove(i)) == table(rows).remove(rows[i].actor_name),
{
    let name_i = rows[i].actor_name;
    let after = rows.remove(i);
    assert forall|a: int| 0 <= a < after.len() implies #[trigger] after[a] == rows[if a < i {
        a
    } else {
        a + 1
    }] by {}
    assert(distinct_names(after)) by {
        assert forall|a: int, b: int|
            0 <= a < after.len() && 0 <= b < after.len() && a != b implies after[a].actor_name
            != after[b].actor_name by {
            let a0 = if a < i { a } else { a + 1 };
            let b0 = if b < i { b } else { b + 1 };
            assert(after[a] == rows[a0]);
            assert(after[b] == rows[b0]);
        }
    }
    assert forall|name: Seq<char>|
        table(after).contains_key(name) <==> #[trigger] table(rows).remove(name_i).contains_key(
            name,
        ) by {
        if table(after).contains_key(name) {
            let k = choose|k: int| heads(after, name, k);
            let k0 = if k < i { k } else { k + 1 };
            assert(after[k] == rows[k0]);
            assert(heads(rows, name, k0));
            assert(name != name_i);
        }
        if table(rows).contains_key(name) && name != name_i {
            let k = choose|k: int| heads(rows, name, k);
            let k1 = if k < i { k } else { k - 1 };
            assert(after[k1] == rows[k]);
            assert(heads(after, name, k1));
        }
    }
    assert forall|name: Seq<char>| table(after).contains_key(name) implies #[trigger] table(
        after,
    )[name] == table(rows).remove(name_i)[name] by {
        let k = choose|k: int| heads(after, name, k);
        let k0 = if k < i { k } else { k + 1 };
        assert(after[k] == rows[k0]);
        lemma_table_row(after, k);
        lemma_table_row(rows, k0);
    }
    assert(table(after) =~= table(rows).remove(name_i));
}

/// A row after a heartbeat of `manager_id` that arrives at `now_ms`.
pub open spec fn refreshed_row(row: Row, manager_id: Seq<char>, now_ms: u64) -> Row {
    if row.entry.manager_id == manager_id {
        Row {
            actor_name: row.actor_name,
            entry: EntryView { last_heartbeat_ts: now_ms, ..row.entry },
        }
    } else {
        row
    }
}

proof fn lemma_table_refresh(before: Seq<Row>, after: Seq<Row>, manager_id: Seq<char>, now_ms: u64)
    requires
        distinct_names(before),
        after.len() == before.len(),
        forall|k: int|
            0 <= k < before.len() ==> after[k] == refreshed_row(before[k], manager_id, now_ms),
    ensures
        distinct_names(after),
        table(after) == refreshed(table(before), manager_id, now_ms),
{
    assert(distinct_names(after)) by {
        assert forall|a: int, b: int|
            0 <= a < after.len() && 0 <= b < after.len() && a != b implies after[a].actor_name
            != after[b].actor_name by {
            assert(after[a].actor_name == before[a].actor_name);
            assert(after[b].actor_name == before[b].actor_name);
        }
    }
    let target = refreshed(table(before), manager_id, now_ms);
    assert forall|name: Seq<char>| table(after).contains_key(name) <==> #[trigger] target.contains_key(
        name,
    ) by {
        if table(after).contains_key(name) {
            let k = choose|k: int| heads(after, name, k);
            assert(heads(before, name, k));
        }
        if table(before).contains_key(name) {
            let k = choose|k: int| heads(before, name, k);
            assert(heads(after, name, k));
        }
    }
    assert forall|name: Seq<char>| table(after).contains_key(name) implies #[trigger] table(
        after,
    )[name] == target[name] by {
        let k = choose|k: int| heads(after, name, k);
        lemma_table_row(after, k);
        lemma_table_row(before, k);
    }
    assert(table(after) =~= target);
}

proof fn lemma_table_len(rows: Seq<Row>)
    requires
        distinct_names(rows),
    ensures
        table(rows).dom().finite(),
        table(rows).len() == rows.len(),
    decreases rows.len(),
{
    if rows.len() == 0 {
        assert(table(rows) =~= Map::<Seq<char>, EntryView>::empty());
    } else {
        let last = rows.last();
        let front = rows.drop_last();
        assert(distinct_names(front));
        lemma_table_len(front);
        assert(forall|i: int| 0 <= i < front.len() ==> front[i].actor_name != last.actor_name);
        lemma_table_push(front, last);
        assert(front.push(last) =~= rows);
        assert(!table(front).contains_key(last.actor_name)) by {
            if table(front).contains_key(last.actor_name) {
                let i = choose|i: int| heads(front, last.actor_name, i);
                assert(front[i].actor_name == last.actor_name);
            }
        }
    }
}

struct Entry {
    actor_name: String,
    manager_id: String,
    actor_endpoint: String,
    last_heartbeat_ts: u64,
}

impl Entry {
    spec fn row(self) -> Row {
        Row {
            actor_name: self.actor_name@,
            entry: EntryView {
                manager_id: self.manager_id@,
                actor_endpoint: self.actor_endpoint@,
                last_heartbeat_ts: self.last_heartbeat_ts,
            },
        }
    }
}

spec fn rows_of(entries: Seq<Entry>) -> Seq<Row> {
    Seq::new(entries.len(), |i: int| entries[i].row())
}

/// Whether an owner last heard of at `last_heartbeat_ts` counts as online at `now_ms`.
pub fn online_at(last_heartbeat_ts: u64, now_ms: u64) -> (online: bool)
    ensures
        online == is_online(last_heartbeat_ts, now_ms),
{
    now_ms < last_heartbeat_ts || now_ms - last_heartbeat_ts < OFFLINE_THRESHOLD_MS
}

/// The directory of the global registry.
pub struct Directory {
    entries: Vec<Entry>,
}

impl View for Directory {
    type V = Map<Seq<char>, EntryView>;

    closed spec fn view(&self) -> Map<Seq<char>, EntryView> {
        table(rows_of(self.entries@))
    }
}

impl Directory {
    #[verifier::type_invariant]
    spec fn well_formed(self) -> bool {
        distinct_names(rows_of(self.entries@))
    }

    /// A directory without entries.
    pub fn new() -> (directory: Directory)
        ensures
            directory@ == Map::<Seq<char>, EntryView>::empty(),
    {
        let directory = Directory { entries: Vec::new() };
        assert(directory@ =~= Map::<Seq<char>, EntryView>::empty());
        directory
    }

    /// The number of names that have an entry.
    pub fn len(&self) -> (n: usize)
        ensures
            n == self@.len(),
            self@.dom().finite(),
    {
        proof {
            use_type_invariant(self);
            lemma_table_len(rows_of(self.entries@));
        }
        self.entries.len()
    }

    fn find(&self, actor_name: &str) -> (found: Option<usize>)
        ensures
            match found {
                Some(i) => heads(rows_of(self.entries@), actor_name@, i as int),
                None => forall|i: int| !heads(rows_of(self.entries@), actor_name@, i),
            },
    {
        let mut i: usize = 0;
        while i < self.entries.len()
            invariant
                i <= self.entries.len(),
                forall|k: int| 0 <= k < i ==> !heads(rows_of(self.entries@), actor_name@, k),
            decreases self.entries.len() - i,
        {
            if same(self.entries[i].actor_name.as_str(), actor_name) {
                return Some(i);
            }
            i += 1;
        }
        None
    }

    /// Handles a lookup that arrives at `now_ms`: the endpoint recorded under
    /// the name, if any, and whether its owner is online.
    pub fn lookup(&self, request: &LookupActor, now_ms: u64) -> (reply: LookupResult)
        ensures
            reply@ == looked_up(self@, request.actor_name@, now_ms),
    {
        proof {
            use_type_invariant(self);
        }
        match self.find(request.actor_name.as_str()) {
            Some(i) => {
                proof {
                    lemma_table_row(rows_of(self.entries@), i as int);
                }
                let entry = &self.entries[i];
                LookupResult {
                    actor_name: request.actor_name.clone(),
                    endpoint: Some(entry.actor_endpoint.clone()),
                    online: online_at(entry.last_heartbeat_ts, now_ms),
                }
            },
            None => LookupResult {
                actor_name: request.actor_name.clone(),
                endpoint: None,
                online: false,
            },
        }
    }

    /// Handles a registration that arrives at `now_ms`.
    ///
    /// A name that is free, or whose owner is offline, goes to the requesting
    /// manager with the given endpoint, and the registration time counts as
    /// its first sign of life. A name whose owner is online stays as it is,
    /// and the request is refused.
    pub fn register(&mut self, request: &RegisterActor, now_ms: u64) -> (reply: Result<
        RegistrationOk,
        RegistrationFailed,
    >)
        ensures
            final(self)@ == registered(
                old(self)@,
                request.manager_id@,
                request.actor_name@,
                request.actor_endpoint@,
                now_ms,
            ),
            match reply {
                Ok(accepted) => accepted@ == registration_reply(
                    old(self)@,
                    request.actor_name@,
                    now_ms,
                ),
                Err(refused) => refused@ == registration_reply(
                    old(self)@,
                    request.actor_name@,
                    now_ms,
                ),
            },
            reply is Ok <==> can_register(old(self)@, request.actor_name@, now_ms),
    {
        proof {
            use_type_invariant(&*self);
        }
        let ghost before = rows_of(self.entries@);
        let found = self.find(request.actor_name.as_str());
        match found {
            Some(i) => {
                proof {
                    lemma_table_row(before, i as int);
                }
                if online_at(self.entries[i].last_heartbeat_ts, now_ms) {
                    return Err(
                        RegistrationFailed {
                            actor_name: request.actor_name.clone(),
                            reason: String::from_str("name already registered"),
                        },
                    );
                }
            },
            None => {
                proof {
                    assert(!table(before).contains_key(request.actor_name@)) by {
                        if table(before).contains_key(request.actor_name@) {
                            let k = choose|k: int| heads(before, request.actor_name@, k);
                            assert(heads(before, request.actor_name@, k));
                        }
                    }
                }
            },
        }
        let entry = Entry {
            actor_name: request.actor_name.clone(),
            manager_id: request.manager_id.clone(),
            actor_endpoint: request.actor_endpoint.clone(),
            last_heartbeat_ts: now_ms,
        };
        let mut entries: Vec<Entry> = Vec::new();
        std::mem::swap(&mut self.entries, &mut entries);
        match found {
            Some(i) => {
                proof {
                    lemma_table_update(before, i as int, entry.row().entry);
                    assert(rows_of(entries@.update(i as int, entry)) =~= before.update(
                        i as int,
                        entry.row(),
                    ));
                }
                entries.set(i, entry);
            },
            None => {
                proof {
                    assert forall|k: int| 0 <= k < before.len() implies before[k].actor_name
                        != entry.row().actor_name by {
                        assert(!heads(before, request.actor_name@, k));
                    }
                    lemma_table_push(before, entry.row());
                    assert(rows_of(entries@.push(entry)) =~= before.push(entry.row()));
                }
                entries.push(entry);
            },
        }
        self.entries = entries;
        Ok(RegistrationOk { actor_name: request.actor_name.clone() })
    }

    /// Handles an unregistration: the entry under the name goes, if there is
    /// one; else nothing changes.
    pub fn unregister(&mut self, request: &UnregisterActor)
        ensures
            final(self)@ == unregistered(old(self)@, request.actor_name@),
    {
        proof {
            use_type_invariant(&*self);
        }
        let ghost before = rows_of(self.entries@);
        match self.find(request.actor_name.as_str()) {
            Some(i) => {
                proof {
                    lemma_table_remove(before, i as int);
                    assert(rows_of(self.entries@.remove(i as int)) =~= before.remove(i as int));
                }
                let mut entries: Vec<Entry> = Vec::new();
                std::mem::swap(&mut self.entries, &mut entries);
                entries.remove(i);
                self.entries = entries;
            },
            None => {
                proof {
                    assert(!table(before).contains_key(request.actor_name@)) by {
                        if table(before).contains_key(request.actor_name@) {
                            let k = choose|k: int| heads(before, request.actor_name@, k);
                            assert(heads(before, request.actor_name@, k));
                        }
                    }
                    assert(table(before).remove(request.actor_name@) =~= table(before));
                }
            },
        }
    }

    /// Handles a heartbeat that arrives at `now_ms`: every entry that the
    /// manager owns counts as heard of at that time.
    pub fn heartbeat(&mut self, beat: &Heartbeat, now_ms: u64) -> (reply: HeartbeatAck)
        ensures
            final(self)@ == refreshed(old(self)@, beat.manager_id@, now_ms),
    {
        proof {
            use_type_invariant(&*self);
        }
        let ghost before = rows_of(self.entries@);
        let mut entries: Vec<Entry> = Vec::new();
        std::mem::swap(&mut self.entries, &mut entries);
        let mut i: usize = 0;
        while i < entries.len()
            invariant
                i <= entries.len(),
                entries.len() == before.len(),
                forall|k: int|
                    0 <= k < i ==> rows_of(entries@)[k] == refreshed_row(
                        before[k],
                        beat.manager_id@,
                        now_ms,
                    ),
                forall|k: int| i <= k < entries.len() ==> rows_of(entries@)[k] == before[k],
            decreases entries.len() - i,
        {
            let ghost earlier = rows_of(entries@);
            if same(entries[i].manager_id.as_str(), beat.manager_id.as_str()) {
                entries[i].last_heartbeat_ts = now_ms;
            }
            proof {
                assert forall|k: int| 0 <= k < i + 1 implies rows_of(entries@)[k]
                    == refreshed_row(before[k], beat.manager_id@, now_ms) by {
                    if k < i {
                        assert(earlier[k] == refreshed_row(before[k], beat.manager_id@, now_ms));
                    } else {
                        assert(earlier[k] == before[k]);
                    }
                }
                assert forall|k: int| i + 1 <= k < entries.len() implies rows_of(entries@)[k]
                    == before[k] by {
                    assert(earlier[k] == before[k]);
                }
            }
            i += 1;
        }
        proof {
            lemma_table_refresh(before, rows_of(entries@), beat.manager_id@, now_ms);
        }
        self.entries = entries;
        HeartbeatAck
    }

    /// Handles whatever message arrives at `now_ms`, one at a time: acts on
    /// the directory as the message asks and hands back the reply, if the
    /// message calls for one.
    pub fn handle(&mut self, message: &Message, now_ms: u64) -> (reply: Option<Message>)
        ensures
            final(self)@ == applied(old(self)@, message@, now_ms),
            match reply {
                Some(answer) => reply_to(old(self)@, message@, now_ms) == Some(answer@),
                None => reply_to(old(self)@, message@, now_ms) is None,
            },
    {
        match message {
            Message::RegisterActor(request) => match self.register(request, now_ms) {
                Ok(accepted) => Some(Message::RegistrationOk(accepted)),
                Err(refused) => Some(Message::RegistrationFailed(refused)),
            },
            Message::UnregisterActor(request) => {
                self.unregister(request);
                None
            },
            Message::LookupActor(request) => Some(
                Message::LookupResult(self.lookup(request, now_ms)),
            ),
            Message::Heartbeat(beat) => Some(Message::HeartbeatAck(self.heartbeat(beat, now_ms))),
            _ => None,
        }
    }
}

} // verus!
