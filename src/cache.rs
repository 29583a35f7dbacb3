use vstd::prelude::*;
use std::collections::HashMap;
use crate::fmt::{concat, push_decimal, decimal};
use crate::model::{CollectionDetail, CollectionEntry, CollectionStatus, SubjectSmall};

verus! {

broadcast use vstd::std_specs::hash::group_hash_axioms;

/// What a cache read hands back at once: the value, or word that it is on its way.
pub enum FetchResult<T> {
    Direct(T),
    Deferred,
}

impl<T> FetchResult<T> {
    /// Both values, when both are there.
    pub fn join<U>(self, another: FetchResult<U>) -> (r: FetchResult<(T, U)>)
        ensures
            (self, another) matches (FetchResult::Direct(t), FetchResult::Direct(u)) ==> r
                == FetchResult::Direct((t, u)),
            !((self, another) matches (FetchResult::Direct(_), FetchResult::Direct(_))) ==> r is Deferred,
    {
        match self {
            FetchResult::Deferred => FetchResult::Deferred,
            FetchResult::Direct(t) => match another {
                FetchResult::Deferred => FetchResult::Deferred,
                FetchResult::Direct(u) => FetchResult::Direct((t, u)),
            },
        }
    }

    /// The value, if it is there.
    pub fn into_option(self) -> (r: Option<T>)
        ensures
            self matches FetchResult::Direct(t) ==> r == Some(t),
            self is Deferred ==> r is None,
    {
        match self {
            FetchResult::Direct(t) => Some(t),
            FetchResult::Deferred => None,
        }
    }
}

/// The state of one cached resource. The key is the ticket of the request that
/// is (or was) filling it.
pub enum InnerState<I, T> {
    Fetching(I),
    Fetched(I, T),
    Discarded,
}

/// Whether a read of an entry in this state launches a request.
pub open spec fn starts_fetch<T>(e: InnerState<u64, T>) -> bool {
    e is Discarded
}

/// The entry after a read; `ticket` names the request a read may launch.
pub open spec fn after_read<T>(e: InnerState<u64, T>, ticket: u64) -> InnerState<u64, T> {
    if starts_fetch(e) {
        InnerState::Fetching(ticket)
    } else {
        e
    }
}

/// What a read of an entry in this state returns.
pub open spec fn read_result<T>(e: InnerState<u64, T>) -> FetchResult<T> {
    match e {
        InnerState::Fetched(_, v) => FetchResult::Direct(v),
        _ => FetchResult::Deferred,
    }
}

/// The entry after request `ticket` came back with `v`: only the request the
/// entry still waits for may fill it.
pub open spec fn after_completion<T>(e: InnerState<u64, T>, ticket: u64, v: T) -> InnerState<u64, T> {
    if e == InnerState::<u64, T>::Fetching(ticket) {
        InnerState::Fetched(ticket, v)
    } else {
        e
    }
}

/// The entry after request `ticket` failed: an entry waiting for it is discarded,
/// so that the next read asks again.
pub open spec fn after_failure<T>(e: InnerState<u64, T>, ticket: u64) -> InnerState<u64, T> {
    if e == InnerState::<u64, T>::Fetching(ticket) {
        InnerState::Discarded
    } else {
        e
    }
}

/// The entry of `k` in a table; a missing entry counts as discarded.
pub open spec fn entry_of<T>(m: Map<u64, InnerState<u64, T>>, k: u64) -> InnerState<u64, T> {
    if m.contains_key(k) {
        m[k]
    } else {
        InnerState::Discarded
    }
}

/// A page of search results as cached: the total count and the ids on the page.
pub struct ShallowSearchResult {
    pub count: usize,
    pub ids: Vec<u64>,
}

/// A page of search results with the subjects filled in.
pub struct PopulatedSearchResult {
    pub count: usize,
    pub list: Vec<SubjectSmall>,
}

/// Results per page of a search.
pub const SEARCH_PAGING: usize = 10;

/// The cached state of one page of one search.
pub struct SearchSlot {
    pub query: String,
    pub page: usize,
    pub state: InnerState<u64, ShallowSearchResult>,
}

/// Index of the slot of `(q, p)` among `slots`, or -1.
pub open spec fn find_slot(slots: Seq<SearchSlot>, q: Seq<char>, p: usize) -> int
    decreases slots.len(),
{
    if slots.len() == 0 {
        -1
    } else {
        let r = find_slot(slots.drop_last(), q, p);
        if r >= 0 {
            r
        } else if slots.last().query@ == q && slots.last().page == p {
            slots.len() - 1
        } else {
            -1
        }
    }
}

/// The state of page `p` of the search `q`.
pub open spec fn search_entry(slots: Seq<SearchSlot>, q: Seq<char>, p: usize) -> InnerState<u64, ShallowSearchResult> {
    let i = find_slot(slots, q, p);
    if i >= 0 {
        slots[i].state
    } else {
        InnerState::Discarded
    }
}

/// Work for the outside world: a request to the service.
pub enum Request {
    Collection { ticket: u64 },
    CollectionDetail { id: u64, ticket: u64 },
    Subject { id: u64, ticket: u64 },
    Search { query: String, page: usize, ticket: u64 },
    UpdateProgress { entry: CollectionEntry, ep: Option<u64>, vol: Option<u64> },
    UpdateCollectionDetail { id: u64, status: CollectionStatus, detail: Option<CollectionDetail> },
}

/// `new` is `old` with one message `m` appended.
pub open spec fn appended(old: Seq<String>, new: Seq<String>, m: Seq<char>) -> bool {
    &&& new.len() == old.len() + 1
    &&& new.drop_last() == old
    &&& new.last()@ == m
}

/// The data cache: one entry per resource, the status messages (latest last)
/// and the requests waiting to be sent.
pub struct AppState {
    pub collection: InnerState<u64, Vec<CollectionEntry>>,
    pub collection_detail: HashMap<u64, InnerState<u64, Option<CollectionDetail>>>,
    pub subject: HashMap<u64, InnerState<u64, SubjectSmall>>,
    pub search: Vec<SearchSlot>,
    pub messages: Vec<String>,
    pub requests: Vec<Request>,
    pub next_ticket: u64,
}

/// An identical copy of a list of collection entries.
pub fn copy_entries(v: &Vec<CollectionEntry>) -> (r: Vec<CollectionEntry>)
    ensures
        r@ == v@,
{
    let mut r: Vec<CollectionEntry> = Vec::new();
    let mut i: usize = 0;
    while i < v.len()
        invariant
            0 <= i <= v@.len(),
            r@ == v@.take(i as int),
        decreases v@.len() - i,
    {
        r.push(v[i].duplicate());
        i = i + 1;
        assert(r@ =~= v@.take(i as int));
    }
    assert(v@.take(v@.len() as int) =~= v@);
    r
}

fn copy_detail(d: &Option<CollectionDetail>) -> (r: Option<CollectionDetail>)
    ensures
        same_detail(r, *d),
{
    match d {
        Some(d) => Some(d.duplicate()),
        None => None,
    }
}

/// Two optional records hold the same values.
pub open spec fn same_detail(a: Option<CollectionDetail>, b: Option<CollectionDetail>) -> bool {
    match (a, b) {
        (Some(x), Some(y)) => x.same(&y),
        (None, None) => true,
        _ => false,
    }
}

fn message(text: &str) -> (r: String)
    ensures
        r@ == text@,
{
    String::from_str(text)
}

impl AppState {
    /// An empty cache greeting the user.
    pub fn create() -> (r: AppState)
        ensures
            r.collection is Discarded,
            r.collection_detail@ == Map::<u64, InnerState<u64, Option<CollectionDetail>>>::empty(),
            r.subject@ == Map::<u64, InnerState<u64, SubjectSmall>>::empty(),
            r.search@.len() == 0,
            r.wf(),
            r.requests@.len() == 0,
            r.messages@.len() == 1,
            r.messages@[0]@ == "Loading bgmTTY..."@,
    {
        let mut messages = Vec::new();
        messages.push(message("Loading bgmTTY..."));
        AppState {
            collection: InnerState::Discarded,
            collection_detail: HashMap::new(),
            subject: HashMap::new(),
            search: Vec::new(),
            messages,
            requests: Vec::new(),
            next_ticket: 0,
        }
    }

    fn take_ticket(&mut self) -> (r: u64)
        ensures
            r == old(self).next_ticket,
            final(self).next_ticket == old(self).next_ticket.wrapping_add(1),
            final(self).collection == old(self).collection,
            final(self).collection_detail == old(self).collection_detail,
            final(self).subject == old(self).subject,
            final(self).search == old(self).search,
            final(self).messages == old(self).messages,
            final(self).requests == old(self).requests,
    {
        let t = self.next_ticket;
        self.next_ticket = self.next_ticket.wrapping_add(1);
        t
    }

    fn note(&mut self, m: String)
        ensures
            appended(old(self).messages@, final(self).messages@, m@),
            final(self).messages@ == old(self).messages@.push(m),
            final(self).collection == old(self).collection,
            final(self).collection_detail == old(self).collection_detail,
            final(self).subject == old(self).subject,
            final(self).search == old(self).search,
            final(self).requests == old(self).requests,
            final(self).next_ticket == old(self).next_ticket,
    {
        self.messages.push(m);
        assert(self.messages@.drop_last() =~= old(self).messages@);
    }

    /// Appends a status message.
    pub fn publish_message(&mut self, msg: String)
        ensures
            final(self).messages@ == old(self).messages@.push(msg),
            final(self).collection == old(self).collection,
            final(self).collection_detail == old(self).collection_detail,
            final(self).subject == old(self).subject,
            final(self).search == old(self).search,
            final(self).requests == old(self).requests,
            final(self).next_ticket == old(self).next_ticket,
    {
        self.messages.push(msg);
    }

    /// The latest status message, or an empty text when there is none.
    pub fn last_message(&self) -> (r: String)
        ensures
            self.messages@.len() > 0 ==> r@ == self.messages@.last()@,
            self.messages@.len() == 0 ==> r@.len() == 0,
    {
        if self.messages.len() == 0 {
            String::new()
        } else {
            self.messages[self.messages.len() - 1].clone()
        }
    }

    /// Hands the waiting requests over to whoever sends them.
    pub fn take_requests(&mut self) -> (r: Vec<Request>)
        ensures
            r@ == old(self).requests@,
            final(self).requests@.len() == 0,
            final(self).collection == old(self).collection,
            final(self).collection_detail == old(self).collection_detail,
            final(self).subject == old(self).subject,
            final(self).search == old(self).search,
            final(self).messages == old(self).messages,
            final(self).next_ticket == old(self).next_ticket,
    {
        let mut r = Vec::new();
        std::mem::swap(&mut r, &mut self.requests);
        r
    }
}

/// Status message when the collection is requested.
pub open spec fn msg_collection_loading() -> Seq<char> { "刷新收藏中..."@ }
/// Status message when a subject is requested.
pub open spec fn msg_subject_loading(id: u64) -> Seq<char> { "获取条目中: "@ + decimal(id as nat) + "..."@ }
/// Status message when a collection record is requested.
pub open spec fn msg_detail_loading() -> Seq<char> { "获取收藏状态..."@ }
/// Status message when a search is requested.
pub open spec fn msg_search_loading(q: Seq<char>) -> Seq<char> { "搜索中: "@ + q + "..."@ }
/// Status message when a progress update is sent.
pub open spec fn msg_progress(id: u64) -> Seq<char> { "更新进度: "@ + decimal(id as nat) + "..."@ }
/// Status message when a collection record update is sent.
pub open spec fn msg_detail_update() -> Seq<char> { "更新更新..."@ }
/// Status message when a request failed.
pub open spec fn msg_failed(err: Seq<char>) -> Seq<char> { "请求失败！"@ + err }

impl AppState {
    /// Reads the collection: the cached value, or `Deferred` while a request is out;
    /// a discarded entry launches a new request.
    pub fn fetch_collection(&mut self) -> (r: FetchResult<Vec<CollectionEntry>>)
        ensures
            ({
                let e = old(self).collection;
                let t = old(self).next_ticket;
                &&& final(self).collection == after_read(e, t)
                &&& (e matches InnerState::Fetched(_, v) ==> r matches FetchResult::Direct(c) && c@ == v@)
                &&& (!(e is Fetched) ==> r is Deferred)
                &&& if starts_fetch(e) {
                    &&& final(self).requests@ == old(self).requests@.push(Request::Collection { ticket: t })
                    &&& appended(old(self).messages@, final(self).messages@, msg_collection_loading())
                    &&& final(self).next_ticket == t.wrapping_add(1)
                } else {
                    &&& final(self).requests == old(self).requests
                    &&& final(self).messages == old(self).messages
                    &&& final(self).next_ticket == t
                }
            }),
            final(self).collection_detail == old(self).collection_detail,
            final(self).subject == old(self).subject,
            final(self).search == old(self).search,
    {
        match &self.collection {
            InnerState::Fetched(_, v) => { return FetchResult::Direct(copy_entries(v)); },
            InnerState::Fetching(_) => { return FetchResult::Deferred; },
            InnerState::Discarded => {},
        }
        let t = self.take_ticket();
        self.collection = InnerState::Fetching(t);
        self.note(message("刷新收藏中..."));
        self.requests.push(Request::Collection { ticket: t });
        FetchResult::Deferred
    }

    /// Request `ticket` brought the collection `value`.
    pub fn complete_collection(&mut self, ticket: u64, value: Vec<CollectionEntry>)
        ensures
            final(self).collection == after_completion(old(self).collection, ticket, value),
            old(self).collection == InnerState::<u64, Vec<CollectionEntry>>::Fetching(ticket) ==> appended(
                old(self).messages@, final(self).messages@, "收藏加载完成！"@),
            old(self).collection != InnerState::<u64, Vec<CollectionEntry>>::Fetching(ticket) ==> final(self).messages == old(self).messages,
            final(self).collection_detail == old(self).collection_detail,
            final(self).subject == old(self).subject,
            final(self).search == old(self).search,
            final(self).requests == old(self).requests,
            final(self).next_ticket == old(self).next_ticket,
    {
        if let InnerState::Fetching(k) = self.collection {
            if k == ticket {
                self.collection = InnerState::Fetched(ticket, value);
                self.note(message("收藏加载完成！"));
            }
        }
    }

    /// Request `ticket` for the collection failed with `err`.
    pub fn fail_collection(&mut self, ticket: u64, err: &str)
        ensures
            final(self).collection == after_failure(old(self).collection, ticket),
            appended(old(self).messages@, final(self).messages@, msg_failed(err@)),
            final(self).collection_detail == old(self).collection_detail,
            final(self).subject == old(self).subject,
            final(self).search == old(self).search,
            final(self).requests == old(self).requests,
            final(self).next_ticket == old(self).next_ticket,
    {
        if let InnerState::Fetching(k) = self.collection {
            if k == ticket {
                self.collection = InnerState::Discarded;
            }
        }
        self.note(concat("请求失败！", err));
    }

    /// Reads subject `id`: the cached value, or `Deferred` while a request is out;
    /// a discarded or missing entry launches a new request.
    pub fn fetch_subject(&mut self, id: u64) -> (r: FetchResult<SubjectSmall>)
        ensures
            ({
                let e = entry_of(old(self).subject@, id);
                let t = old(self).next_ticket;
                &&& r == read_result(e)
                &&& if starts_fetch(e) {
                    &&& final(self).subject@ == old(self).subject@.insert(id, InnerState::Fetching(t))
                    &&& final(self).requests@ == old(self).requests@.push(Request::Subject { id, ticket: t })
                    &&& appended(old(self).messages@, final(self).messages@, msg_subject_loading(id))
                    &&& final(self).next_ticket == t.wrapping_add(1)
                } else {
                    &&& final(self).subject == old(self).subject
                    &&& final(self).requests == old(self).requests
                    &&& final(self).messages == old(self).messages
                    &&& final(self).next_ticket == t
                }
            }),
            final(self).collection == old(self).collection,
            final(self).collection_detail == old(self).collection_detail,
            final(self).search == old(self).search,
    {
        match self.subject.get(&id) {
            Some(InnerState::Fetched(_, v)) => { return FetchResult::Direct(v.duplicate()); },
            Some(InnerState::Fetching(_)) => { return FetchResult::Deferred; },
            _ => {},
        }
        let t = self.take_ticket();
        self.subject.insert(id, InnerState::Fetching(t));
        let mut m = message("获取条目中: ");
        push_decimal(&mut m, id);
        m.append("...");
        self.note(m);
        self.requests.push(Request::Subject { id, ticket: t });
        FetchResult::Deferred
    }

    /// Request `ticket` brought subject `id`.
    pub fn complete_subject(&mut self, id: u64, ticket: u64, value: SubjectSmall)
        ensures
            ({
                let e = entry_of(old(self).subject@, id);
                &&& entry_of(final(self).subject@, id) == after_completion(e, ticket, value)
                &&& forall|k: u64| k != id ==> entry_of(final(self).subject@, k) == entry_of(old(self).subject@, k)
                &&& e == InnerState::<u64, SubjectSmall>::Fetching(ticket) ==> appended(old(self).messages@, final(self).messages@, "条目加载完成！"@)
                &&& e != InnerState::<u64, SubjectSmall>::Fetching(ticket) ==> final(self).messages == old(self).messages
            }),
            final(self).collection == old(self).collection,
            final(self).collection_detail == old(self).collection_detail,
            final(self).search == old(self).search,
            final(self).requests == old(self).requests,
            final(self).next_ticket == old(self).next_ticket,
    {
        let waiting = match self.subject.get(&id) {
            Some(InnerState::Fetching(k)) => *k == ticket,
            _ => false,
        };
        if waiting {
            self.subject.insert(id, InnerState::Fetched(ticket, value));
            self.note(message("条目加载完成！"));
        }
    }

    /// Request `ticket` for subject `id` failed with `err`.
    pub fn fail_subject(&mut self, id: u64, ticket: u64, err: &str)
        ensures
            entry_of(final(self).subject@, id) == after_failure(entry_of(old(self).subject@, id), ticket),
            forall|k: u64| k != id ==> entry_of(final(self).subject@, k) == entry_of(old(self).subject@, k),
            appended(old(self).messages@, final(self).messages@, msg_failed(err@)),
            final(self).collection == old(self).collection,
            final(self).collection_detail == old(self).collection_detail,
            final(self).search == old(self).search,
            final(self).requests == old(self).requests,
            final(self).next_ticket == old(self).next_ticket,
    {
        let waiting = match self.subject.get(&id) {
            Some(InnerState::Fetching(k)) => *k == ticket,
            _ => false,
        };
        if waiting {
            self.subject.insert(id, InnerState::Discarded);
        }
        self.note(concat("请求失败！", err));
    }

    /// Forgets subject `id`, so that the next read asks again.
    pub fn refresh_subject(&mut self, id: u64)
        ensures
            old(self).subject@.contains_key(id) ==> final(self).subject@ == old(self).subject@.insert(id, InnerState::Discarded),
            !old(self).subject@.contains_key(id) ==> final(self).subject == old(self).subject,
            final(self).collection == old(self).collection,
            final(self).collection_detail == old(self).collection_detail,
            final(self).search == old(self).search,
            final(self).messages == old(self).messages,
            final(self).requests == old(self).requests,
            final(self).next_ticket == old(self).next_ticket,
    {
        if self.subject.get(&id).is_some() {
            self.subject.insert(id, InnerState::Discarded);
        }
    }

    /// Forgets the collection, so that the next read asks again.
    pub fn refresh_collection(&mut self)
        ensures
            final(self).collection is Discarded,
            final(self).collection_detail == old(self).collection_detail,
            final(self).subject == old(self).subject,
            final(self).search == old(self).search,
            final(self).messages == old(self).messages,
            final(self).requests == old(self).requests,
            final(self).next_ticket == old(self).next_ticket,
    {
        self.collection = InnerState::Discarded;
    }
}

impl AppState {
    /// Reads the user's record of subject `id` (`None` when the subject is not
    /// collected): the cached value, or `Deferred` while a request is out; a
    /// discarded or missing entry launches a new request.
    pub fn fetch_collection_detail(&mut self, id: u64) -> (r: FetchResult<Option<CollectionDetail>>)
        ensures
            ({
                let e = entry_of(old(self).collection_detail@, id);
                let t = old(self).next_ticket;
                &&& (e matches InnerState::Fetched(_, v) ==> r matches FetchResult::Direct(c) && same_detail(c, v))
                &&& (!(e is Fetched) ==> r is Deferred)
                &&& if starts_fetch(e) {
                    &&& final(self).collection_detail@ == old(self).collection_detail@.insert(id, InnerState::Fetching(t))
                    &&& final(self).requests@ == old(self).requests@.push(Request::CollectionDetail { id, ticket: t })
                    &&& appended(old(self).messages@, final(self).messages@, msg_detail_loading())
                    &&& final(self).next_ticket == t.wrapping_add(1)
                } else {
                    &&& final(self).collection_detail == old(self).collection_detail
                    &&& final(self).requests == old(self).requests
                    &&& final(self).messages == old(self).messages
                    &&& final(self).next_ticket == t
                }
            }),
            final(self).collection == old(self).collection,
            final(self).subject == old(self).subject,
            final(self).search == old(self).search,
    {
        match self.collection_detail.get(&id) {
            Some(InnerState::Fetched(_, v)) => { return FetchResult::Direct(copy_detail(v)); },
            Some(InnerState::Fetching(_)) => { return FetchResult::Deferred; },
            _ => {},
        }
        let t = self.take_ticket();
        self.collection_detail.insert(id, InnerState::Fetching(t));
        self.note(message("获取收藏状态..."));
        self.requests.push(Request::CollectionDetail { id, ticket: t });
        FetchResult::Deferred
    }

    /// Request `ticket` brought the user's record of subject `id`.
    pub fn complete_collection_detail(&mut self, id: u64, ticket: u64, value: Option<CollectionDetail>)
        ensures
            ({
                let e = entry_of(old(self).collection_detail@, id);
                &&& entry_of(final(self).collection_detail@, id) == after_completion(e, ticket, value)
                &&& forall|k: u64| k != id ==> entry_of(final(self).collection_detail@, k) == entry_of(old(self).collection_detail@, k)
                &&& e == InnerState::<u64, Option<CollectionDetail>>::Fetching(ticket) ==> appended(old(self).messages@, final(self).messages@, "收藏加载完成！"@)
                &&& e != InnerState::<u64, Option<CollectionDetail>>::Fetching(ticket) ==> final(self).messages == old(self).messages
            }),
            final(self).collection == old(self).collection,
            final(self).subject == old(self).subject,
            final(self).search == old(self).search,
            final(self).requests == old(self).requests,
            final(self).next_ticket == old(self).next_ticket,
    {
        let waiting = match self.collection_detail.get(&id) {
            Some(InnerState::Fetching(k)) => *k == ticket,
            _ => false,
        };
        if waiting {
            self.collection_detail.insert(id, InnerState::Fetched(ticket, value));
            self.note(message("收藏加载完成！"));
        }
    }

    /// Request `ticket` for the record of subject `id` failed with `err`.
    pub fn fail_collection_detail(&mut self, id: u64, ticket: u64, err: &str)
        ensures
            entry_of(final(self).collection_detail@, id) == after_failure(entry_of(old(self).collection_detail@, id), ticket),
            forall|k: u64| k != id ==> entry_of(final(self).collection_detail@, k) == entry_of(old(self).collection_detail@, k),
            appended(old(self).messages@, final(self).messages@, msg_failed(err@)),
            final(self).collection == old(self).collection,
            final(self).subject == old(self).subject,
            final(self).search == old(self).search,
            final(self).requests == old(self).requests,
            final(self).next_ticket == old(self).next_ticket,
    {
        let waiting = match self.collection_detail.get(&id) {
            Some(InnerState::Fetching(k)) => *k == ticket,
            _ => false,
        };
        if waiting {
            self.collection_detail.insert(id, InnerState::Discarded);
        }
        self.note(concat("请求失败！", err));
    }

    /// Forgets the record of subject `id`, so that the next read asks again.
    pub fn refresh_collection_detail(&mut self, id: u64)
        ensures
            old(self).collection_detail@.contains_key(id) ==> final(self).collection_detail@ == old(self).collection_detail@.insert(id, InnerState::Discarded),
            !old(self).collection_detail@.contains_key(id) ==> final(self).collection_detail == old(self).collection_detail,
            final(self).collection == old(self).collection,
            final(self).subject == old(self).subject,
            final(self).search == old(self).search,
            final(self).messages == old(self).messages,
            final(self).requests == old(self).requests,
            final(self).next_ticket == old(self).next_ticket,
    {
        if self.collection_detail.get(&id).is_some() {
            self.collection_detail.insert(id, InnerState::Discarded);
        }
    }

    /// Sends new progress of `entry` (episodes `ep`, volumes `vol`; `None` keeps the
    /// current count) and discards the cached collection at once.
    pub fn update_progress(&mut self, entry: &CollectionEntry, ep: Option<u64>, vol: Option<u64>)
        ensures
            appended(old(self).messages@, final(self).messages@, msg_progress(entry.subject.id)),
            final(self).requests@ == old(self).requests@.push(Request::UpdateProgress { entry: *entry, ep, vol }),
            final(self).collection is Discarded,
            final(self).collection_detail == old(self).collection_detail,
            final(self).subject == old(self).subject,
            final(self).search == old(self).search,
            final(self).next_ticket == old(self).next_ticket,
    {
        let mut m = message("更新进度: ");
        push_decimal(&mut m, entry.subject.id);
        m.append("...");
        self.note(m);
        self.requests.push(Request::UpdateProgress { entry: entry.duplicate(), ep, vol });
        self.collection = InnerState::Discarded;
    }

    /// A progress update went through: the collection is discarded so that the next
    /// read fetches the new counts.
    pub fn complete_progress(&mut self)
        ensures
            final(self).collection is Discarded,
            final(self).collection_detail == old(self).collection_detail,
            final(self).subject == old(self).subject,
            final(self).search == old(self).search,
            final(self).messages == old(self).messages,
            final(self).requests == old(self).requests,
            final(self).next_ticket == old(self).next_ticket,
    {
        self.collection = InnerState::Discarded;
    }

    /// Sends a new record of subject `id` with status `status` and discards the cached
    /// record of the subject at once.
    pub fn update_collection_detail(&mut self, id: u64, status: CollectionStatus, record: Option<CollectionDetail>)
        ensures
            appended(old(self).messages@, final(self).messages@, msg_detail_update()),
            final(self).requests@ == old(self).requests@.push(Request::UpdateCollectionDetail { id, status, detail: record }),
            final(self).collection == old(self).collection,
            old(self).collection_detail@.contains_key(id) ==> final(self).collection_detail@ == old(self).collection_detail@.insert(id, InnerState::Discarded),
            !old(self).collection_detail@.contains_key(id) ==> final(self).collection_detail == old(self).collection_detail,
            final(self).subject == old(self).subject,
            final(self).search == old(self).search,
            final(self).next_ticket == old(self).next_ticket,
    {
        self.note(message("更新更新..."));
        self.requests.push(Request::UpdateCollectionDetail { id, status, detail: record });
        if self.collection_detail.get(&id).is_some() {
            self.collection_detail.insert(id, InnerState::Discarded);
        }
    }

    /// The record of subject `id` was updated to `value` by the service.
    pub fn complete_collection_detail_update(&mut self, id: u64, value: CollectionDetail)
        ensures
            final(self).collection_detail@ == old(self).collection_detail@.insert(id, InnerState::Fetched(old(self).next_ticket, Some(value))),
            appended(old(self).messages@, final(self).messages@, "收藏更新完成！"@),
            final(self).next_ticket == old(self).next_ticket.wrapping_add(1),
            final(self).collection == old(self).collection,
            final(self).subject == old(self).subject,
            final(self).search == old(self).search,
            final(self).requests == old(self).requests,
    {
        let t = self.take_ticket();
        self.collection_detail.insert(id, InnerState::Fetched(t, Some(value)));
        self.note(message("收藏更新完成！"));
    }
}

/// A slot found at index `j` of a prefix is the first slot of the whole table.
proof fn lemma_find_slot_prefix(slots: Seq<SearchSlot>, q: Seq<char>, p: usize, n: int)
    requires
        0 <= n <= slots.len(),
        find_slot(slots.take(n), q, p) >= 0,
    ensures
        find_slot(slots, q, p) == find_slot(slots.take(n), q, p),
    decreases slots.len() - n,
{
    if n < slots.len() {
        assert(slots.take(n + 1).drop_last() =~= slots.take(n));
        lemma_find_slot_prefix(slots, q, p, n + 1);
    } else {
        assert(slots.take(n) =~= slots);
    }
}

/// A table without a slot in its first `n` entries, nor in the rest, has none.
proof fn lemma_find_slot_none(slots: Seq<SearchSlot>, q: Seq<char>, p: usize)
    requires
        find_slot(slots.take(slots.len() as int), q, p) < 0,
    ensures
        find_slot(slots, q, p) < 0,
{
    assert(slots.take(slots.len() as int) =~= slots);
}

/// Subject table after caching every subject of `list` as fetched by request `ticket`.
pub open spec fn with_subjects(m: Map<u64, InnerState<u64, SubjectSmall>>, list: Seq<SubjectSmall>, ticket: u64) -> Map<
    u64,
    InnerState<u64, SubjectSmall>,
>
    decreases list.len(),
{
    if list.len() == 0 {
        m
    } else {
        with_subjects(m, list.drop_last(), ticket).insert(list.last().id, InnerState::Fetched(ticket, list.last()))
    }
}

/// Every id of `ids` has a fetched subject in `m`, and `list` holds those subjects in order.
pub open spec fn populated(m: Map<u64, InnerState<u64, SubjectSmall>>, ids: Seq<u64>, list: Seq<SubjectSmall>) -> bool {
    &&& list.len() == ids.len()
    &&& forall|i: int| 0 <= i < ids.len() ==> #[trigger] entry_of(m, ids[i]) == InnerState::<u64, SubjectSmall>::Fetched(
        entry_of(m, ids[i])->Fetched_0,
        list[i],
    )
}

/// Every id of `ids` has a fetched subject in `m`.
pub open spec fn all_fetched(m: Map<u64, InnerState<u64, SubjectSmall>>, ids: Seq<u64>) -> bool {
    forall|i: int| 0 <= i < ids.len() ==> #[trigger] entry_of(m, ids[i]) is Fetched
}

impl AppState {
    fn find_search(&self, query: &String, page: usize) -> (r: Option<usize>)
        ensures
            r matches Some(i) ==> i == find_slot(self.search@, query@, page) && i < self.search@.len(),
            r is None ==> find_slot(self.search@, query@, page) < 0,
    {
        let mut j: usize = 0;
        while j < self.search.len()
            invariant
                0 <= j <= self.search@.len(),
                find_slot(self.search@.take(j as int), query@, page) < 0,
            decreases self.search@.len() - j,
        {
            assert(self.search@.take(j + 1).drop_last() =~= self.search@.take(j as int));
            if self.search[j].query == *query && self.search[j].page == page {
                proof {
                    lemma_find_slot_prefix(self.search@, query@, page, j + 1);
                }
                return Some(j);
            }
            j = j + 1;
        }
        proof {
            lemma_find_slot_none(self.search@, query@, page);
        }
        None
    }

    fn populate_search(&self, shallow: &ShallowSearchResult) -> (r: FetchResult<PopulatedSearchResult>)
        ensures
            all_fetched(self.subject@, shallow.ids@) ==> (r matches FetchResult::Direct(p) && p.count == shallow.count
                && populated(self.subject@, shallow.ids@, p.list@)),
            !all_fetched(self.subject@, shallow.ids@) ==> r is Deferred,
    {
        let mut list: Vec<SubjectSmall> = Vec::new();
        let mut i: usize = 0;
        while i < shallow.ids.len()
            invariant
                0 <= i <= shallow.ids@.len(),
                populated(self.subject@, shallow.ids@.take(i as int), list@),
            decreases shallow.ids@.len() - i,
        {
            let id = shallow.ids[i];
            match self.subject.get(&id) {
                Some(InnerState::Fetched(_, v)) => {
                    list.push(v.duplicate());
                },
                _ => {
                    assert(!(entry_of(self.subject@, shallow.ids@[i as int]) is Fetched));
                    return FetchResult::Deferred;
                },
            }
            i = i + 1;
            assert forall|k: int| 0 <= k < i implies #[trigger] entry_of(self.subject@, shallow.ids@.take(i as int)[k])
                == InnerState::<u64, SubjectSmall>::Fetched(entry_of(self.subject@, shallow.ids@.take(i as int)[k])->Fetched_0, list@[k]) by {
                if k < i - 1 {
                    assert(shallow.ids@.take(i as int)[k] == shallow.ids@.take(i - 1)[k]);
                }
            }
        }
        assert(shallow.ids@.take(shallow.ids@.len() as int) =~= shallow.ids@);
        FetchResult::Direct(PopulatedSearchResult { count: shallow.count, list })
    }

    /// Reads page `page` of the search `query`: the page with its subjects, or
    /// `Deferred` while a request is out or a subject of the page is missing; a
    /// discarded or missing entry launches a new request.
    pub fn fetch_search(&mut self, query: &str, page: usize) -> (r: FetchResult<PopulatedSearchResult>)
        ensures
            old(self).wf() ==> final(self).wf(),
            ({
                let e = search_entry(old(self).search@, query@, page);
                let i = find_slot(old(self).search@, query@, page);
                let t = old(self).next_ticket;
                &&& (e matches InnerState::Fetched(_, sh) ==> {
                    &&& all_fetched(old(self).subject@, sh.ids@) ==> (r matches FetchResult::Direct(p) && p.count == sh.count
                        && populated(old(self).subject@, sh.ids@, p.list@))
                    &&& !all_fetched(old(self).subject@, sh.ids@) ==> r is Deferred
                })
                &&& (!(e is Fetched) ==> r is Deferred)
                &&& if starts_fetch(e) {
                    &&& (i >= 0 ==> final(self).search@.len() == old(self).search@.len()
                        && final(self).search@[i].state == InnerState::<u64, ShallowSearchResult>::Fetching(t)
                        && final(self).search@[i].query@ == query@ && final(self).search@[i].page == page
                        && forall|j: int| 0 <= j < old(self).search@.len() && j != i ==> #[trigger] final(self).search@[j] == old(self).search@[j])
                    &&& (i < 0 ==> final(self).search@.len() == old(self).search@.len() + 1
                        && final(self).search@.last().state == InnerState::<u64, ShallowSearchResult>::Fetching(t)
                        && final(self).search@.last().query@ == query@ && final(self).search@.last().page == page
                        && final(self).search@.drop_last() == old(self).search@)
                    &&& final(self).requests@.len() == old(self).requests@.len() + 1
                    &&& final(self).requests@.drop_last() == old(self).requests@
                    &&& final(self).requests@.last() matches Request::Search { query: q2, page: p2, ticket: t2 }
                        && q2@ == query@ && p2 == page && t2 == t
                    &&& appended(old(self).messages@, final(self).messages@, msg_search_loading(query@))
                    &&& final(self).next_ticket == t.wrapping_add(1)
                } else {
                    &&& final(self).search == old(self).search
                    &&& final(self).requests == old(self).requests
                    &&& final(self).messages == old(self).messages
                    &&& final(self).next_ticket == t
                }
            }),
            final(self).collection == old(self).collection,
            final(self).collection_detail == old(self).collection_detail,
            final(self).subject == old(self).subject,
    {
        let q = String::from_str(query);
        let found = self.find_search(&q, page);
        if let Some(i) = found {
            match &self.search[i].state {
                InnerState::Fetched(_, sh) => { return self.populate_search(sh); },
                InnerState::Fetching(_) => { return FetchResult::Deferred; },
                InnerState::Discarded => {},
            }
        }
        let t = self.take_ticket();
        match found {
            Some(i) => {
                let slot = SearchSlot { query: q.clone(), page, state: InnerState::Fetching(t) };
                proof { lemma_search_keys_stay_unique_if(old(self).search@, query@, page, slot); }
                self.search.set(i, slot);
            },
            None => {
                let slot = SearchSlot { query: q.clone(), page, state: InnerState::Fetching(t) };
                proof { lemma_search_keys_stay_unique_if(old(self).search@, query@, page, slot); }
                self.search.push(slot);
                assert(self.search@.drop_last() =~= old(self).search@);
            },
        }
        let mut m = message("搜索中: ");
        m.append(query);
        m.append("...");
        self.note(m);
        self.requests.push(Request::Search { query: q, page, ticket: t });
        assert(self.requests@.drop_last() =~= old(self).requests@);
        FetchResult::Deferred
    }

    /// Request `ticket` brought page `page` of the search `query`: `count` results in
    /// all, `list` on the page. The subjects on the page are cached too.
    pub fn complete_search(&mut self, query: &str, page: usize, ticket: u64, count: usize, list: Vec<SubjectSmall>)
        ensures
            old(self).wf() ==> final(self).wf(),
            ({
                let e = search_entry(old(self).search@, query@, page);
                let i = find_slot(old(self).search@, query@, page);
                if e == InnerState::<u64, ShallowSearchResult>::Fetching(ticket) {
                    &&& final(self).search@.len() == old(self).search@.len()
                    &&& final(self).search@[i].state matches InnerState::Fetched(k, sh) && k == ticket && sh.count == count
                        && sh.ids@ == list@.map_values(|s: SubjectSmall| s.id)
                    &&& final(self).search@[i].query@ == query@ && final(self).search@[i].page == page
                    &&& forall|j: int| 0 <= j < old(self).search@.len() && j != i ==> #[trigger] final(self).search@[j] == old(self).search@[j]
                    &&& final(self).subject@ == with_subjects(old(self).subject@, list@, ticket)
                    &&& appended(old(self).messages@, final(self).messages@, "搜索完成！"@)
                } else {
                    &&& final(self).search == old(self).search
                    &&& final(self).subject == old(self).subject
                    &&& final(self).messages == old(self).messages
                }
            }),
            final(self).collection == old(self).collection,
            final(self).collection_detail == old(self).collection_detail,
            final(self).requests == old(self).requests,
            final(self).next_ticket == old(self).next_ticket,
    {
        let q = String::from_str(query);
        let found = self.find_search(&q, page);
        let i = match found {
            Some(i) => i,
            None => { return; },
        };
        let waiting = match &self.search[i].state {
            InnerState::Fetching(k) => *k == ticket,
            _ => false,
        };
        if !waiting {
            return;
        }
        let mut ids: Vec<u64> = Vec::new();
        let mut j: usize = 0;
        let ghost m0 = self.subject@;
        let ghost slots0 = self.search@;
        let ghost msgs0 = self.messages@;
        while j < list.len()
            invariant
                0 <= j <= list@.len(),
                ids@ == list@.take(j as int).map_values(|s: SubjectSmall| s.id),
                self.subject@ == with_subjects(m0, list@.take(j as int), ticket),
                self.search@ == slots0,
                self.messages@ == msgs0,
                self.collection == old(self).collection,
                self.collection_detail == old(self).collection_detail,
                self.requests == old(self).requests,
                self.next_ticket == old(self).next_ticket,
            decreases list@.len() - j,
        {
            assert(list@.take(j + 1).drop_last() =~= list@.take(j as int));
            let s = list[j].duplicate();
            ids.push(s.id);
            self.subject.insert(s.id, InnerState::Fetched(ticket, s));
            j = j + 1;
            assert(ids@ =~= list@.take(j as int).map_values(|s: SubjectSmall| s.id));
        }
        assert(list@.take(list@.len() as int) =~= list@);
        let slot = SearchSlot { query: q, page, state: InnerState::Fetched(ticket, ShallowSearchResult { count, ids }) };
        proof { lemma_search_keys_stay_unique_if(old(self).search@, query@, page, slot); }
        self.search.set(i, slot);
        self.note(message("搜索完成！"));
    }

    /// Request `ticket` for page `page` of the search `query` failed with `err`.
    pub fn fail_search(&mut self, query: &str, page: usize, ticket: u64, err: &str)
        ensures
            old(self).wf() ==> final(self).wf(),
            ({
                let e = search_entry(old(self).search@, query@, page);
                let i = find_slot(old(self).search@, query@, page);
                if e == InnerState::<u64, ShallowSearchResult>::Fetching(ticket) {
                    &&& final(self).search@ == old(self).search@.update(i, SearchSlot { state: InnerState::Discarded, ..old(self).search@[i] })
                } else {
                    &&& final(self).search == old(self).search
                }
            }),
            appended(old(self).messages@, final(self).messages@, msg_failed(err@)),
            final(self).collection == old(self).collection,
            final(self).collection_detail == old(self).collection_detail,
            final(self).subject == old(self).subject,
            final(self).requests == old(self).requests,
            final(self).next_ticket == old(self).next_ticket,
    {
        let q = String::from_str(query);
        if let Some(i) = self.find_search(&q, page) {
            let waiting = match &self.search[i].state {
                InnerState::Fetching(k) => *k == ticket,
                _ => false,
            };
            if waiting {
                let slot = SearchSlot { query: self.search[i].query.clone(), page: self.search[i].page, state: InnerState::Discarded };
                proof {
                    lemma_find_slot_found(old(self).search@, q@, page);
                    lemma_search_keys_stay_unique_if(old(self).search@, q@, page, slot);
                }
                self.search.set(i, slot);
                assert(self.search@ =~= old(self).search@.update(i as int, SearchSlot { state: InnerState::Discarded, ..old(self).search@[i as int] }));
            }
        }
        self.note(concat("请求失败！", err));
    }

    /// Forgets page `page` of the search `query`, so that the next read asks again.
    pub fn refresh_search(&mut self, query: String, page: usize)
        ensures
            old(self).wf() ==> final(self).wf(),
            ({
                let i = find_slot(old(self).search@, query@, page);
                &&& i >= 0 ==> final(self).search@ == old(self).search@.update(i, SearchSlot { state: InnerState::Discarded, ..old(self).search@[i] })
                &&& i < 0 ==> final(self).search == old(self).search
            }),
            final(self).collection == old(self).collection,
            final(self).collection_detail == old(self).collection_detail,
            final(self).subject == old(self).subject,
            final(self).messages == old(self).messages,
            final(self).requests == old(self).requests,
            final(self).next_ticket == old(self).next_ticket,
    {
        if let Some(i) = self.find_search(&query, page) {
            let slot = SearchSlot { query: self.search[i].query.clone(), page: self.search[i].page, state: InnerState::Discarded };
            proof {
                lemma_find_slot_found(old(self).search@, query@, page);
                lemma_search_keys_stay_unique_if(old(self).search@, query@, page, slot);
            }
            self.search.set(i, slot);
            assert(self.search@ =~= old(self).search@.update(i as int, SearchSlot { state: InnerState::Discarded, ..old(self).search@[i as int] }));
        }
    }
}

/// One request per entry at a time: after a read, the entry no longer launches
/// requests, so a second read right after the first returns `Deferred` (or the
/// value) and leaves the entry as it was; and the answer to request `k1` never
/// fills an entry that now waits for another request `k2`.
pub proof fn lemma_single_flight<T>(e: InnerState<u64, T>, t1: u64, t2: u64, k1: u64, k2: u64, v: T)
    ensures
        !starts_fetch(after_read(e, t1)),
        after_read(after_read(e, t1), t2) == after_read(e, t1),
        starts_fetch(e) ==> read_result(after_read(e, t1)) is Deferred,
        k1 != k2 ==> after_completion(InnerState::Fetching(k2), k1, v) == InnerState::<u64, T>::Fetching(k2),
        k1 != k2 ==> after_failure(InnerState::<u64, T>::Fetching(k2), k1) == InnerState::<u64, T>::Fetching(k2),
{
}

/// An entry that is not cached answers `Deferred` to a first and a second read,
/// which launch one request between them; once that request's answer `v` is in,
/// every read answers `v`.
pub proof fn lemma_deferred_until_answer<T>(e: InnerState<u64, T>, t1: u64, t2: u64, v: T)
    requires
        starts_fetch(e),
    ensures
        read_result(e) is Deferred,
        read_result(after_read(e, t1)) is Deferred,
        ({
            let waiting = after_read(after_read(e, t1), t2);
            let done = after_completion(waiting, t1, v);
            &&& waiting == InnerState::<u64, T>::Fetching(t1)
            &&& read_result(done) == FetchResult::Direct(v)
            &&& after_read(done, t2) == done
        }),
{
}

/// The first and last position (counting from one) of the results on page `page`
/// of a search with `count` results, capped at the largest position.
pub fn page_range(count: usize, page: usize) -> (r: (usize, usize))
    ensures
        r.0 == if page * SEARCH_PAGING + 1 > usize::MAX { usize::MAX as int } else { page * SEARCH_PAGING + 1 },
        r.1 == if (page + 1) * SEARCH_PAGING > count { count as int } else { (page + 1) * SEARCH_PAGING },
{
    let first: usize = if page > (usize::MAX - 1) / SEARCH_PAGING { usize::MAX } else { page * SEARCH_PAGING + 1 };
    let last: usize = if page >= count / SEARCH_PAGING { count } else { (page + 1) * SEARCH_PAGING };
    (first, last)
}

/// No two slots of the search table hold the same page of the same search.
pub open spec fn search_unique(slots: Seq<SearchSlot>) -> bool {
    forall|i: int, j: int|
        0 <= i < j < slots.len() ==> !(#[trigger] slots[i].query@ == #[trigger] slots[j].query@ && slots[i].page == slots[j].page)
}

/// A table without a slot for `(q, p)` holds no slot with that key.
proof fn lemma_find_slot_absent(slots: Seq<SearchSlot>, q: Seq<char>, p: usize, i: int)
    requires
        find_slot(slots, q, p) < 0,
        0 <= i < slots.len(),
    ensures
        !(slots[i].query@ == q && slots[i].page == p),
    decreases slots.len(),
{
    if i < slots.len() - 1 {
        assert(slots.drop_last()[i] == slots[i]);
        lemma_find_slot_absent(slots.drop_last(), q, p, i);
    }
}

/// A slot found for `(q, p)` holds that key.
proof fn lemma_find_slot_found(slots: Seq<SearchSlot>, q: Seq<char>, p: usize)
    ensures
        find_slot(slots, q, p) >= 0 ==> find_slot(slots, q, p) < slots.len() && slots[find_slot(slots, q, p)].query@ == q
            && slots[find_slot(slots, q, p)].page == p,
    decreases slots.len(),
{
    if slots.len() > 0 {
        lemma_find_slot_found(slots.drop_last(), q, p);
    }
}

impl AppState {
    /// The search table holds each page of each search at most once.
    pub open spec fn wf(&self) -> bool {
        search_unique(self.search@)
    }

    /// A progress or record update failed with `err`: the failure is reported.
    pub fn fail_update(&mut self, err: &str)
        ensures
            appended(old(self).messages@, final(self).messages@, msg_failed(err@)),
            final(self).collection == old(self).collection,
            final(self).collection_detail == old(self).collection_detail,
            final(self).subject == old(self).subject,
            final(self).search == old(self).search,
            final(self).requests == old(self).requests,
            final(self).next_ticket == old(self).next_ticket,
    {
        self.note(concat("请求失败！", err));
    }
}

/// Every change the cache goes through keeps each page of each search at most once
/// in its table: a read adds a slot only for a page it has none of, and the other
/// changes keep the keys of the slots.
pub proof fn lemma_search_keys_stay_unique(old_slots: Seq<SearchSlot>, q: Seq<char>, p: usize, slot: SearchSlot)
    requires
        search_unique(old_slots),
    ensures
        find_slot(old_slots, q, p) < 0 && slot.query@ == q && slot.page == p ==> search_unique(old_slots.push(slot)),
        ({
            let i = find_slot(old_slots, q, p);
            i >= 0 && slot.query@ == q && slot.page == p ==> search_unique(old_slots.update(i, slot))
        }),
{
    lemma_find_slot_found(old_slots, q, p);
    if find_slot(old_slots, q, p) < 0 && slot.query@ == q && slot.page == p {
        let n = old_slots.push(slot);
        assert forall|i: int, j: int| 0 <= i < j < n.len() implies !(#[trigger] n[i].query@ == #[trigger] n[j].query@ && n[i].page == n[j].page) by {
            if j == old_slots.len() {
                lemma_find_slot_absent(old_slots, q, p, i);
            } else {
                assert(n[i] == old_slots[i] && n[j] == old_slots[j]);
            }
        }
    }
    let i = find_slot(old_slots, q, p);
    if i >= 0 && slot.query@ == q && slot.page == p {
        let n = old_slots.update(i, slot);
        assert forall|a: int, b: int| 0 <= a < b < n.len() implies !(#[trigger] n[a].query@ == #[trigger] n[b].query@ && n[a].page == n[b].page) by {
            assert(n[a].query@ == old_slots[a].query@ && n[a].page == old_slots[a].page);
            assert(n[b].query@ == old_slots[b].query@ && n[b].page == old_slots[b].page);
        }
    }
}

proof fn lemma_search_keys_stay_unique_if(old_slots: Seq<SearchSlot>, q: Seq<char>, p: usize, slot: SearchSlot)
    ensures
        search_unique(old_slots) && find_slot(old_slots, q, p) < 0 && slot.query@ == q && slot.page == p ==> search_unique(old_slots.push(slot)),
        ({
            let i = find_slot(old_slots, q, p);
            search_unique(old_slots) && i >= 0 && slot.query@ == q && slot.page == p ==> search_unique(old_slots.update(i, slot))
        }),
{
    if search_unique(old_slots) {
        lemma_search_keys_stay_unique(old_slots, q, p, slot);
    }
}

} // verus!
