//! Sessions: which Codex thread each wrapper session continues.

use crate::error::AppError;
use crate::json::{integer, json_views, JsonValue, JsonView};
use crate::text::{concat3, same};
use vstd::prelude::*;

verus! {

/// What is kept of a session.
#[derive(Debug)]
pub struct SessionRecord {
    pub session_id: String,
    pub thread_id: String,
    pub model: String,
    pub created_at: i64,
    pub updated_at: i64,
}

/// The mathematical session record.
pub struct SessionView {
    pub session_id: Seq<char>,
    pub thread_id: Seq<char>,
    pub model: Seq<char>,
    pub created_at: i64,
    pub updated_at: i64,
}

impl View for SessionRecord {
    type V = SessionView;

    open spec fn view(&self) -> SessionView {
        SessionView {
            session_id: self.session_id@,
            thread_id: self.thread_id@,
            model: self.model@,
            created_at: self.created_at,
            updated_at: self.updated_at,
        }
    }
}

impl Clone for SessionRecord {
    fn clone(&self) -> (record: SessionRecord)
        ensures
            record == *self,
    {
        SessionRecord {
            session_id: self.session_id.clone(),
            thread_id: self.thread_id.clone(),
            model: self.model.clone(),
            created_at: self.created_at,
            updated_at: self.updated_at,
        }
    }
}

/// The thread of an optional session.
pub open spec fn thread_of(session: Option<SessionRecord>) -> Option<Seq<char>> {
    match session {
        Some(record) => Some(record.thread_id@),
        None => None,
    }
}

/// The known sessions, each under its own id.
pub struct SessionStore {
    records: Vec<SessionRecord>,
}

/// The values of a list of records.
pub open spec fn record_views(records: Seq<SessionRecord>) -> Seq<SessionView> {
    records.map_values(|record: SessionRecord| record@)
}

/// The sessions that a list of records stands for; of two with one id the later counts.
pub open spec fn sessions_of(records: Seq<SessionView>) -> Map<Seq<char>, SessionView>
    decreases records.len(),
{
    if records.len() == 0 {
        Map::empty()
    } else {
        sessions_of(records.drop_last()).insert(records.last().session_id, records.last())
    }
}

/// Whether no two records have one id.
pub open spec fn distinct(records: Seq<SessionView>) -> bool {
    forall|i: int, j: int|
        0 <= i < j < records.len() ==> (#[trigger] records[i]).session_id != (
        #[trigger] records[j]).session_id
}

/// Whether the records are the sessions, each once.
pub open spec fn lists(records: Seq<SessionView>, sessions: Map<Seq<char>, SessionView>) -> bool {
    &&& distinct(records)
    &&& forall|i: int|
        0 <= i < records.len() ==> sessions.contains_key((#[trigger] records[i]).session_id)
            && sessions[records[i].session_id] == records[i]
    &&& forall|id: Seq<char>| #[trigger]
        sessions.contains_key(id) ==> exists|i: int|
            0 <= i < records.len() && (#[trigger] records[i]).session_id == id
}

/// Whether the records go from the latest update to the earliest.
pub open spec fn latest_first(records: Seq<SessionView>) -> bool {
    forall|i: int, j: int|
        0 <= i <= j < records.len() ==> (#[trigger] records[i]).updated_at >= (
        #[trigger] records[j]).updated_at
}

/// The record of a session after a turn at `now`: a known session keeps its creation time.
pub open spec fn updated_record(
    sessions: Map<Seq<char>, SessionView>,
    session_id: Seq<char>,
    thread_id: Seq<char>,
    model: Seq<char>,
    now: i64,
) -> SessionView {
    SessionView {
        session_id,
        thread_id,
        model,
        created_at: if sessions.contains_key(session_id) {
            sessions[session_id].created_at
        } else {
            now
        },
        updated_at: now,
    }
}

proof fn lemma_no_session(records: Seq<SessionView>, id: Seq<char>)
    requires
        forall|i: int| 0 <= i < records.len() ==> (#[trigger] records[i]).session_id != id,
    ensures
        !sessions_of(records).contains_key(id),
    decreases records.len(),
{
    if records.len() > 0 {
        assert(records[records.len() - 1].session_id != id);
        lemma_no_session(records.drop_last(), id);
    }
}

proof fn lemma_session_at(records: Seq<SessionView>, at: int)
    requires
        distinct(records),
        0 <= at < records.len(),
    ensures
        sessions_of(records).contains_key(records[at].session_id),
        sessions_of(records)[records[at].session_id] == records[at],
    decreases records.len(),
{
    if at < records.len() - 1 {
        assert(records[at].session_id != records[records.len() - 1].session_id);
        lemma_session_at(records.drop_last(), at);
    }
}

proof fn lemma_session_has_record(records: Seq<SessionView>, id: Seq<char>) -> (at: int)
    requires
        sessions_of(records).contains_key(id),
    ensures
        0 <= at < records.len(),
        records[at].session_id == id,
        sessions_of(records)[id] == records[at],
    decreases records.len(),
{
    if records.last().session_id == id {
        records.len() - 1
    } else {
        lemma_session_has_record(records.drop_last(), id)
    }
}

proof fn lemma_lists(records: Seq<SessionView>)
    requires
        distinct(records),
    ensures
        lists(records, sessions_of(records)),
{
    let sessions = sessions_of(records);
    assert forall|i: int| 0 <= i < records.len() implies sessions.contains_key(
        (#[trigger] records[i]).session_id,
    ) && sessions[records[i].session_id] == records[i] by {
        lemma_session_at(records, i);
    }
    assert forall|id: Seq<char>| #[trigger] sessions.contains_key(id) implies exists|i: int|
        0 <= i < records.len() && (#[trigger] records[i]).session_id == id by {
        let at = lemma_session_has_record(records, id);
    }
}

proof fn lemma_same_sessions(one: Seq<SessionView>, other: Seq<SessionView>)
    requires
        distinct(one),
        distinct(other),
        forall|i: int| 0 <= i < one.len() ==> other.contains(#[trigger] one[i]),
        forall|i: int| 0 <= i < other.len() ==> one.contains(#[trigger] other[i]),
    ensures
        sessions_of(one) == sessions_of(other),
{
    assert forall|id: Seq<char>|
        #![trigger sessions_of(one).dom().contains(id)]
        #![trigger sessions_of(other).dom().contains(id)]
        #![trigger sessions_of(one)[id]]
        sessions_of(one).dom().contains(id) == sessions_of(other).dom().contains(id) && (
        sessions_of(one).dom().contains(id) ==> sessions_of(one)[id] == sessions_of(other)[id]) by {
        if sessions_of(one).contains_key(id) {
            let at = lemma_session_has_record(one, id);
            assert(other.contains(one[at]));
            let there = choose|j: int| 0 <= j < other.len() && other[j] == one[at];
            lemma_session_at(other, there);
        }
        if sessions_of(other).contains_key(id) {
            let at = lemma_session_has_record(other, id);
            assert(one.contains(other[at]));
            let there = choose|j: int| 0 <= j < one.len() && one[j] == other[at];
            lemma_session_at(one, there);
        }
    }
    assert(sessions_of(one) =~= sessions_of(other));
}

proof fn lemma_put(records: Seq<SessionView>, at: int, record: SessionView)
    requires
        distinct(records),
        0 <= at < records.len(),
        record.session_id == records[at].session_id,
    ensures
        distinct(records.update(at, record)),
        sessions_of(records.update(at, record)) == sessions_of(records).insert(
            record.session_id,
            record,
        ),
    decreases records.len(),
{
    let updated = records.update(at, record);
    assert(distinct(updated)) by {
        assert forall|i: int, j: int| 0 <= i < j < updated.len() implies (
        #[trigger] updated[i]).session_id != (#[trigger] updated[j]).session_id by {
            assert(records[i].session_id != records[j].session_id);
        }
    }
    if at == records.len() - 1 {
        assert(updated.drop_last() == records.drop_last());
        assert(sessions_of(updated) =~= sessions_of(records).insert(record.session_id, record));
    } else {
        assert(records[at].session_id != records[records.len() - 1].session_id);
        lemma_put(records.drop_last(), at, record);
        assert(updated.drop_last() == records.drop_last().update(at, record));
        assert(sessions_of(updated) =~= sessions_of(records).insert(record.session_id, record));
    }
}

proof fn lemma_removed(records: Seq<SessionView>, at: int)
    requires
        distinct(records),
        0 <= at < records.len(),
    ensures
        distinct(records.remove(at)),
        sessions_of(records.remove(at)) == sessions_of(records).remove(records[at].session_id),
    decreases records.len(),
{
    let left = records.remove(at);
    let id = records[at].session_id;
    assert(distinct(left)) by {
        assert forall|i: int, j: int| 0 <= i < j < left.len() implies (
        #[trigger] left[i]).session_id != (#[trigger] left[j]).session_id by {
            let a = if i < at {
                i
            } else {
                i + 1
            };
            let b = if j < at {
                j
            } else {
                j + 1
            };
            assert(records[a].session_id != records[b].session_id);
        }
    }
    if at == records.len() - 1 {
        assert(left == records.drop_last());
        assert forall|i: int| 0 <= i < left.len() implies (#[trigger] left[i]).session_id != id by {
            assert(records[i].session_id != records[at].session_id);
        }
        lemma_no_session(left, id);
        assert(sessions_of(left) =~= sessions_of(records).remove(id));
    } else {
        assert(records[at].session_id != records[records.len() - 1].session_id);
        lemma_removed(records.drop_last(), at);
        assert(left.drop_last() == records.drop_last().remove(at));
        assert(sessions_of(left) =~= sessions_of(records).remove(id));
    }
}

impl View for SessionStore {
    type V = Map<Seq<char>, SessionView>;

    closed spec fn view(&self) -> Map<Seq<char>, SessionView> {
        sessions_of(record_views(self.records@))
    }
}

impl SessionStore {
    /// No two records have one id.
    pub closed spec fn well_formed(self) -> bool {
        distinct(record_views(self.records@))
    }

    /// A store without sessions.
    pub fn new() -> (store: SessionStore)
        ensures
            store.well_formed(),
            store@ == Map::<Seq<char>, SessionView>::empty(),
    {
        SessionStore { records: Vec::new() }
    }

    fn position(&self, session_id: &str) -> (place: Option<usize>)
        requires
            self.well_formed(),
        ensures
            match place {
                Some(at) => {
                    &&& at < self.records@.len()
                    &&& self.records@[at as int].session_id@ == session_id@
                    &&& self@.contains_key(session_id@)
                    &&& self@[session_id@] == self.records@[at as int]@
                },
                None => {
                    &&& !self@.contains_key(session_id@)
                    &&& forall|i: int|
                        0 <= i < self.records@.len() ==> (
                        #[trigger] self.records@[i]).session_id@ != session_id@
                },
            },
    {
        let ghost views = record_views(self.records@);
        let mut at: usize = 0;
        while at < self.records.len()
            invariant
                at <= self.records.len(),
                views == record_views(self.records@),
                distinct(views),
                forall|i: int|
                    0 <= i < at ==> (#[trigger] self.records@[i]).session_id@ != session_id@,
            decreases self.records.len() - at,
        {
            if same(self.records[at].session_id.as_str(), session_id) {
                proof {
                    lemma_session_at(views, at as int);
                }
                return Some(at);
            }
            at = at + 1;
        }
        proof {
            lemma_no_session(views, session_id@);
        }
        None
    }

    /// The store that a list of records stands for.
    pub fn from_records(records: Vec<SessionRecord>) -> (store: SessionStore)
        ensures
            store.well_formed(),
            store@ == sessions_of(record_views(records@)),
    {
        let ghost views = record_views(records@);
        let mut store = SessionStore::new();
        let mut at: usize = 0;
        while at < records.len()
            invariant
                at <= records.len(),
                views == record_views(records@),
                store.well_formed(),
                store@ == sessions_of(views.take(at as int)),
            decreases records.len() - at,
        {
            let record = records[at].clone();
            assert(views.take(at + 1).drop_last() == views.take(at as int));
            assert(views.take(at + 1).last() == record@);
            store.put(record);
            at = at + 1;
        }
        assert(views.take(records.len() as int) == views);
        store
    }

    fn put(&mut self, record: SessionRecord)
        requires
            old(self).well_formed(),
        ensures
            final(self).well_formed(),
            final(self)@ == old(self)@.insert(record.session_id@, record@),
    {
        let ghost before = record_views(self.records@);
        match self.position(record.session_id.as_str()) {
            Some(at) => {
                self.records.set(at, record);
                proof {
                    lemma_put(before, at as int, record@);
                    assert(record_views(self.records@) == before.update(at as int, record@));
                }
            },
            None => {
                self.records.push(record);
                proof {
                    let now = record_views(self.records@);
                    assert(now == before.push(record@));
                    assert(now.drop_last() == before);
                    assert forall|i: int, j: int| 0 <= i < j < now.len() implies (
                    #[trigger] now[i]).session_id != (#[trigger] now[j]).session_id by {
                        assert(now[i] == before[i]);
                        assert(old(self).records@[i].session_id@ != record.session_id@);
                        if j < before.len() {
                            assert(before[i].session_id != before[j].session_id);
                        }
                    }
                }
            },
        }
    }

    /// The record of a session.
    pub fn get(&self, session_id: &str) -> (record: Option<SessionRecord>)
        requires
            self.well_formed(),
        ensures
            match record {
                Some(r) => self@.contains_key(session_id@) && r@ == self@[session_id@],
                None => !self@.contains_key(session_id@),
            },
    {
        match self.position(session_id) {
            Some(at) => Some(self.records[at].clone()),
            None => None,
        }
    }

    /// Records a turn of a session at `now`.
    pub fn upsert(
        &mut self,
        session_id: String,
        thread_id: String,
        model: String,
        now: i64,
    ) -> (record: SessionRecord)
        requires
            old(self).well_formed(),
        ensures
            final(self).well_formed(),
            record@ == updated_record(old(self)@, session_id@, thread_id@, model@, now),
            final(self)@ == old(self)@.insert(session_id@, record@),
    {
        let created_at: i64 = match self.position(session_id.as_str()) {
            Some(at) => self.records[at].created_at,
            None => now,
        };
        let record = SessionRecord { session_id, thread_id, model, created_at, updated_at: now };
        self.put(record.clone());
        record
    }

    /// Forgets a session.
    pub fn delete(&mut self, session_id: &str) -> (removed: Option<SessionRecord>)
        requires
            old(self).well_formed(),
        ensures
            final(self).well_formed(),
            final(self)@ == old(self)@.remove(session_id@),
            match removed {
                Some(r) => old(self)@.contains_key(session_id@) && r@ == old(self)@[session_id@],
                None => !old(self)@.contains_key(session_id@),
            },
    {
        let ghost before = record_views(self.records@);
        match self.position(session_id) {
            Some(at) => {
                let removed = self.records.remove(at);
                proof {
                    lemma_removed(before, at as int);
                    assert(record_views(self.records@) == before.remove(at as int));
                }
                Some(removed)
            },
            None => {
                assert(self@ =~= old(self)@.remove(session_id@));
                None
            },
        }
    }

    /// The sessions, each once, as they are to be saved.
    pub fn snapshot(&self) -> (records: Vec<SessionRecord>)
        requires
            self.well_formed(),
        ensures
            lists(record_views(records@), self@),
    {
        let mut records: Vec<SessionRecord> = Vec::new();
        let mut at: usize = 0;
        while at < self.records.len()
            invariant
                at <= self.records.len(),
                records@ == self.records@.take(at as int),
            decreases self.records.len() - at,
        {
            records.push(self.records[at].clone());
            at = at + 1;
        }
        assert(records@ == self.records@);
        proof {
            lemma_lists(record_views(records@));
        }
        records
    }

    /// The sessions, each once, the latest update first.
    pub fn list(&self) -> (records: Vec<SessionRecord>)
        requires
            self.well_formed(),
        ensures
            lists(record_views(records@), self@),
            latest_first(record_views(records@)),
    {
        let ghost views = record_views(self.records@);
        let mut sorted: Vec<SessionRecord> = Vec::new();
        let mut at: usize = 0;
        while at < self.records.len()
            invariant
                at <= self.records.len(),
                views == record_views(self.records@),
                distinct(views),
                latest_first(record_views(sorted@)),
                distinct(record_views(sorted@)),
                sessions_of(record_views(sorted@)) == sessions_of(views.take(at as int)),
            decreases self.records.len() - at,
        {
            let record = self.records[at].clone();
            let ghost before = record_views(sorted@);
            proof {
                let ahead = views.take(at as int);
                assert forall|i: int| 0 <= i < before.len() implies (
                #[trigger] before[i]).session_id != record.session_id@ by {
                    lemma_session_at(before, i);
                    let there = lemma_session_has_record(ahead, before[i].session_id);
                    assert(ahead[there] == views[there]);
                    assert(views[there].session_id != views[at as int].session_id);
                }
            }
            insert_by_update(&mut sorted, record);
            proof {
                assert(views.take(at + 1).drop_last() == views.take(at as int));
            }
            at = at + 1;
        }
        proof {
            assert(views.take(views.len() as int) == views);
            lemma_lists(record_views(sorted@));
        }
        sorted
    }
}

fn insert_by_update(sorted: &mut Vec<SessionRecord>, record: SessionRecord)
    requires
        distinct(record_views(old(sorted)@)),
        latest_first(record_views(old(sorted)@)),
        forall|i: int|
            0 <= i < old(sorted)@.len() ==> (#[trigger] record_views(old(sorted)@)[i]).session_id
                != record.session_id@,
    ensures
        distinct(record_views(final(sorted)@)),
        latest_first(record_views(final(sorted)@)),
        sessions_of(record_views(final(sorted)@)) == sessions_of(
            record_views(old(sorted)@),
        ).insert(record.session_id@, record@),
{
    let ghost before = record_views(sorted@);
    let mut at: usize = 0;
    while at < sorted.len() && sorted[at].updated_at >= record.updated_at
        invariant
            at <= sorted.len(),
            *sorted == *old(sorted),
            before == record_views(sorted@),
            forall|i: int| 0 <= i < at ==> (#[trigger] before[i]).updated_at >= record.updated_at,
        decreases sorted.len() - at,
    {
        assert(before[at as int] == sorted@[at as int]@);
        at = at + 1;
    }
    if at < sorted.len() {
        assert(before[at as int] == sorted@[at as int]@);
    }
    sorted.insert(at, record);
    proof {
        let now = record_views(sorted@);
        assert(now == before.insert(at as int, record@));
        let appended = before.push(record@);
        assert forall|i: int, j: int| 0 <= i < j < now.len() implies (#[trigger] now[i]).session_id
            != (#[trigger] now[j]).session_id by {
            let a = if i < at {
                i
            } else {
                i - 1
            };
            let b = if j < at {
                j
            } else {
                j - 1
            };
            if i != at && j != at {
                assert(before[a].session_id != before[b].session_id);
            } else if i == at {
                assert(before[b].session_id != record.session_id@);
            } else {
                assert(before[a].session_id != record.session_id@);
            }
        }
        assert forall|i: int, j: int| 0 <= i < j < appended.len() implies (
        #[trigger] appended[i]).session_id != (#[trigger] appended[j]).session_id by {
            assert(before[i].session_id != record.session_id@);
            if j < before.len() {
                assert(before[i].session_id != before[j].session_id);
            }
        }
        assert forall|i: int, j: int| 0 <= i <= j < now.len() implies (
        #[trigger] now[i]).updated_at >= (#[trigger] now[j]).updated_at by {
            if i < at {
                assert(now[i] == before[i]);
            } else if i > at {
                assert(now[i] == before[i - 1]);
            }
            if j < at {
                assert(now[j] == before[j]);
            } else if j > at {
                assert(now[j] == before[j - 1]);
                assert(before[at as int].updated_at >= before[j - 1].updated_at);
            }
        }
        assert forall|i: int| 0 <= i < now.len() implies appended.contains(#[trigger] now[i]) by {
            if i < at {
                assert(appended[i] == now[i]);
            } else if i > at {
                assert(appended[i - 1] == now[i]);
            } else {
                assert(appended[before.len() as int] == now[i]);
            }
        }
        assert forall|i: int| 0 <= i < appended.len() implies now.contains(
            #[trigger] appended[i],
        ) by {
            if i == before.len() {
                assert(now[at as int] == appended[i]);
            } else if i < at {
                assert(now[i] == appended[i]);
            } else {
                assert(now[i + 1] == appended[i]);
            }
        }
        lemma_same_sessions(now, appended);
        assert(appended.drop_last() == before);
    }
}

/// A record as JSON.
pub open spec fn record_json(record: SessionView) -> JsonView {
    JsonView::Object(
        map![
            "session_id"@ => JsonView::Text(record.session_id),
            "thread_id"@ => JsonView::Text(record.thread_id),
            "model"@ => JsonView::Text(record.model),
            "created_at"@ => integer(record.created_at as int),
            "updated_at"@ => integer(record.updated_at as int),
        ],
    )
}

/// Records as a JSON array.
pub open spec fn records_json(records: Seq<SessionView>) -> JsonView {
    JsonView::Array(records.map_values(|record: SessionView| record_json(record)))
}

impl SessionRecord {
    /// The record as JSON.
    pub fn to_json(&self) -> (json: JsonValue)
        ensures
            json@ == record_json(self@),
    {
        JsonValue::object().with(
            "session_id",
            JsonValue::from_text(self.session_id.as_str()),
        ).with("thread_id", JsonValue::from_text(self.thread_id.as_str())).with(
            "model",
            JsonValue::from_text(self.model.as_str()),
        ).with("created_at", JsonValue::from_i64(self.created_at)).with(
            "updated_at",
            JsonValue::from_i64(self.updated_at),
        )
    }
}

/// Records as a JSON array.
pub fn records_to_json(records: &Vec<SessionRecord>) -> (json: JsonValue)
    ensures
        json@ == records_json(record_views(records@)),
{
    let ghost listed = record_views(records@).map_values(
        |record: SessionView| record_json(record),
    );
    let mut items: Vec<JsonValue> = Vec::new();
    let mut at: usize = 0;
    while at < records.len()
        invariant
            at <= records.len(),
            at == items.len(),
            listed == record_views(records@).map_values(|record: SessionView| record_json(record)),
            json_views(items@) == listed.take(at as int),
        decreases records.len() - at,
    {
        items.push(records[at].to_json());
        at = at + 1;
        assert(json_views(items@) == listed.take(at as int));
    }
    assert(listed.take(records.len() as int) == listed);
    JsonValue::array(items)
}

/// The reply to a request for all sessions: the records, the latest update first.
pub fn list_sessions(store: &SessionStore) -> (reply: JsonValue)
    requires
        store.well_formed(),
    ensures
        exists|records: Seq<SessionView>|
            lists(records, store@) && latest_first(records) && reply@ == JsonView::Object(
                map!["object"@ => JsonView::Text("list"@), "data"@ => #[trigger] records_json(records)],
            ),
{
    let records = store.list();
    let reply = JsonValue::object().with("object", JsonValue::from_text("list")).with(
        "data",
        records_to_json(&records),
    );
    assert(reply@ == JsonView::Object(
        map![
            "object"@ => JsonView::Text("list"@),
            "data"@ => records_json(record_views(records@)),
        ],
    ));
    reply
}

/// The message for a session that is not known.
pub open spec fn unknown_session(session_id: Seq<char>) -> Seq<char> {
    "unknown session `"@ + session_id + "`"@
}

fn unknown_session_error(session_id: &str) -> (error: AppError)
    ensures
        error matches AppError::NotFound(message) && message@ == unknown_session(session_id@),
{
    AppError::NotFound(concat3("unknown session `", session_id, "`"))
}

/// The reply to a request for one session.
pub fn get_session(store: &SessionStore, session_id: &str) -> (reply: Result<JsonValue, AppError>)
    requires
        store.well_formed(),
    ensures
        match reply {
            Ok(json) => store@.contains_key(session_id@) && json@ == record_json(
                store@[session_id@],
            ),
            Err(error) => {
                &&& !store@.contains_key(session_id@)
                &&& error matches AppError::NotFound(message)
                &&& message@ == unknown_session(session_id@)
            },
        },
{
    match store.get(session_id) {
        Some(record) => Ok(record.to_json()),
        None => Err(unknown_session_error(session_id)),
    }
}

/// The reply to a deletion, given what was removed.
pub fn deleted_session_reply(session_id: &str, removed: &Option<SessionRecord>) -> (reply: Result<
    JsonValue,
    AppError,
>)
    ensures
        match reply {
            Ok(json) => removed matches Some(record) && json@ == JsonView::Object(
                map![
                    "deleted"@ => JsonView::Bool(true),
                    "session"@ => record_json(record@),
                    "note"@ => JsonView::Text(
                        "This removes the wrapper mapping. It does not delete Codex's persisted thread rollout."@,
                    ),
                ],
            ),
            Err(error) => {
                &&& removed is None
                &&& error matches AppError::NotFound(message)
                &&& message@ == unknown_session(session_id@)
            },
        },
{
    match removed {
        Some(record) => Ok(
            JsonValue::object().with("deleted", JsonValue::Bool(true)).with(
                "session",
                record.to_json(),
            ).with(
                "note",
                JsonValue::from_text(
                    "This removes the wrapper mapping. It does not delete Codex's persisted thread rollout.",
                ),
            ),
        ),
        None => Err(unknown_session_error(session_id)),
    }
}

/// Saving the sessions and reading them back gives the same sessions, in whatever order they
/// were saved.
pub proof fn law_saved_sessions_come_back(
    saved: Seq<SessionView>,
    sessions: Map<Seq<char>, SessionView>,
)
    requires
        lists(saved, sessions),
    ensures
        sessions_of(saved) == sessions,
{
    assert forall|id: Seq<char>|
        #![trigger sessions_of(saved).dom().contains(id)]
        #![trigger sessions.dom().contains(id)]
        #![trigger sessions_of(saved)[id]]
        sessions_of(saved).dom().contains(id) == sessions.dom().contains(id) && (sessions_of(
            saved,
        ).dom().contains(id) ==> sessions_of(saved)[id] == sessions[id]) by {
        if sessions_of(saved).dom().contains(id) {
            let at = lemma_session_has_record(saved, id);
            assert(sessions.contains_key(saved[at].session_id));
        }
        if sessions.dom().contains(id) {
            assert(sessions.contains_key(id));
            let at = choose|i: int|
                0 <= i < saved.len() && (#[trigger] saved[i]).session_id == id;
            lemma_session_at(saved, at);
        }
    }
    assert(sessions_of(saved) =~= sessions);
}

/// A turn of a session is found again under its id, with the thread and model it was given;
/// a session keeps the creation time of its first turn, and no other session changes.
pub proof fn law_upsert_is_found_again(
    sessions: Map<Seq<char>, SessionView>,
    session_id: Seq<char>,
    thread_id: Seq<char>,
    model: Seq<char>,
    now: i64,
    other: Seq<char>,
)
    ensures
        ({
            let record = updated_record(sessions, session_id, thread_id, model, now);
            let after = sessions.insert(session_id, record);
            &&& after.contains_key(session_id)
            &&& after[session_id].thread_id == thread_id
            &&& after[session_id].model == model
            &&& after[session_id].updated_at == now
            &&& sessions.contains_key(session_id) ==> after[session_id].created_at
                == sessions[session_id].created_at
            &&& other != session_id ==> after.contains_key(other) == sessions.contains_key(other)
                && (sessions.contains_key(other) ==> after[other] == sessions[other])
        }),
{
}

/// A deleted session is gone, and no other session changes.
pub proof fn law_deleted_session_is_gone(
    sessions: Map<Seq<char>, SessionView>,
    session_id: Seq<char>,
    other: Seq<char>,
)
    ensures
        !sessions.remove(session_id).contains_key(session_id),
        other != session_id && sessions.contains_key(other) ==> sessions.remove(
            session_id,
        ).contains_key(other) && sessions.remove(session_id)[other] == sessions[other],
{
}

proof fn lemma_record_names()
    ensures
        "session_id"@ != "thread_id"@,
        "session_id"@ != "model"@,
        "session_id"@ != "created_at"@,
        "session_id"@ != "updated_at"@,
        "thread_id"@ != "model"@,
        "thread_id"@ != "created_at"@,
        "thread_id"@ != "updated_at"@,
        "model"@ != "created_at"@,
        "model"@ != "updated_at"@,
        "created_at"@ != "updated_at"@,
{
    reveal_strlit("session_id");
    reveal_strlit("thread_id");
    reveal_strlit("model");
    reveal_strlit("created_at");
    reveal_strlit("updated_at");
    assert("session_id"@.len() != "thread_id"@.len());
    assert("session_id"@.len() != "model"@.len());
    assert("session_id"@[0] != "created_at"@[0]);
    assert("session_id"@[0] != "updated_at"@[0]);
    assert("thread_id"@.len() != "model"@.len());
    assert("thread_id"@.len() != "created_at"@.len());
    assert("thread_id"@.len() != "updated_at"@.len());
    assert("model"@.len() != "created_at"@.len());
    assert("model"@.len() != "updated_at"@.len());
    assert("created_at"@[0] != "updated_at"@[0]);
}

/// A record as JSON holds all that the record does, each under its own name.
pub proof fn law_record_shows_what_it_holds(record: SessionRecord) -> (shown: Map<
    Seq<char>,
    JsonView,
>)
    ensures
        record_json(record@) == JsonView::Object(shown),
        shown["session_id"@] == JsonView::Text(record.session_id@),
        shown["thread_id"@] == JsonView::Text(record.thread_id@),
        shown["model"@] == JsonView::Text(record.model@),
        shown["created_at"@].as_i64() == Some(record.created_at),
        shown["updated_at"@].as_i64() == Some(record.updated_at),
{
    lemma_record_names();
    record_json(record@)->Object_0
}

/// The list of sessions shows every record in its place.
pub proof fn law_records_are_shown_one_by_one(records: Seq<SessionRecord>, at: int)
    requires
        0 <= at < records.len(),
    ensures
        records_json(record_views(records)) is Array,
        records_json(record_views(records))->Array_0.len() == records.len(),
        records_json(record_views(records))->Array_0[at] == record_json(records[at]@),
{
}

/// Listed sessions are all sessions, each once: every session is in the list and every record in
/// the list is a session; and where they are sorted, a later update comes no later.
pub proof fn law_listed_sessions_are_all_sessions(
    records: Seq<SessionView>,
    sessions: Map<Seq<char>, SessionView>,
    id: Seq<char>,
    i: int,
    j: int,
)
    requires
        lists(records, sessions),
    ensures
        sessions.contains_key(id) ==> records.contains(sessions[id]),
        0 <= i < records.len() ==> sessions.contains_key(records[i].session_id)
            && sessions[records[i].session_id] == records[i],
        0 <= i < j < records.len() ==> records[i].session_id != records[j].session_id,
        latest_first(records) && 0 <= i < j < records.len() ==> records[i].updated_at
            >= records[j].updated_at,
{
    if sessions.contains_key(id) {
        let at = choose|at: int|
            0 <= at < records.len() && (#[trigger] records[at]).session_id == id;
        assert(records[at] == sessions[id]);
    }
}

/// The sessions of a list of records are found by their ids; of two records with one id the later
/// counts.
pub proof fn law_records_stand_for_their_sessions(
    records: Seq<SessionView>,
    record: SessionView,
    id: Seq<char>,
)
    ensures
        sessions_of(Seq::empty()).dom().is_empty(),
        sessions_of(records.push(record)).contains_key(record.session_id),
        sessions_of(records.push(record))[record.session_id] == record,
        id != record.session_id ==> sessions_of(records.push(record)).contains_key(id)
            == sessions_of(records).contains_key(id),
        id != record.session_id && sessions_of(records).contains_key(id) ==> sessions_of(
            records.push(record),
        )[id] == sessions_of(records)[id],
{
    assert(records.push(record).drop_last() =~= records);
}

/// A record starts with the session's own id, thread, model and time.
pub proof fn law_new_session_starts_now(
    sessions: Map<Seq<char>, SessionView>,
    session_id: Seq<char>,
    thread_id: Seq<char>,
    model: Seq<char>,
    now: i64,
)
    requires
        !sessions.contains_key(session_id),
    ensures
        ({
            let record = updated_record(sessions, session_id, thread_id, model, now);
            &&& record.session_id == session_id
            &&& record.thread_id == thread_id
            &&& record.model == model
            &&& record.created_at == now
            &&& record.updated_at == now
        }),
{
}

/// An unknown session is named as it was asked for.
pub proof fn law_unknown_session_is_named(session_id: Seq<char>)
    ensures
        unknown_session(session_id) == "unknown session `"@ + session_id + "`"@,
{
}

/// A record is what it holds, and a list of records has them in order.
pub proof fn law_records_are_what_they_hold(
    record: SessionRecord,
    records: Seq<SessionRecord>,
    at: int,
)
    requires
        0 <= at < records.len(),
    ensures
        record@.session_id == record.session_id@,
        record@.thread_id == record.thread_id@,
        record@.model == record.model@,
        record@.created_at == record.created_at,
        record@.updated_at == record.updated_at,
        record_views(records).len() == records.len(),
        record_views(records)[at] == records[at]@,
{
}

} // verus!
