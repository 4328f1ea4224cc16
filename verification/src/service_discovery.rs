//! Discovery of a service: the changes of a cluster, as a stream of clients to use and addresses
//! to drop.

use std::marker::PhantomData;
use std::task::Context;
use std::task::Poll;
use tokio::sync::mpsc::Receiver;
use tower::discover::Change;
use vstd::prelude::*;

use crate::external::found_closed;
use crate::external::new_response;
use crate::external::poll_changes;
use crate::external::response_of;
use crate::external::taken_changes;

verus! {

/// What comes of a change: the change for the users of the service, or why there is none.
pub type DiscoverResult<K, S, E> = Result<Change<K, S>, E>;

/// The address of a host.
#[derive(Clone, Copy, Debug, PartialEq, Eq, Structural)]
pub enum IpAddr {
    /// The 32 bits of an IPv4 address.
    V4(u32),
    /// The 128 bits of an IPv6 address, with its flow label and its zone.
    V6 { bits: u128, flowinfo: u32, scope_id: u32 },
}

/// Where a member of the cluster serves.
#[derive(Clone, Copy, Debug, PartialEq, Eq, Structural)]
pub struct SocketAddr {
    pub ip: IpAddr,
    pub port: u16,
}

/// What a member of the cluster can serve.
#[derive(Clone, Copy, Debug, PartialEq, Eq, Structural)]
pub enum QuickwitService {
    ControlPlane,
    Indexer,
    Searcher,
    Janitor,
    Metastore,
}

/// What discovery needs to know of a member of the cluster.
#[derive(Clone, Debug)]
pub struct ClusterMember {
    /// The services that the member runs, in no particular order.
    pub enabled_services: Vec<QuickwitService>,
}

impl ClusterMember {
    /// Whether the member runs `service`.
    pub open spec fn spec_enables(self, service: QuickwitService) -> bool {
        self.enabled_services@.contains(service)
    }

    /// Whether the member runs `service`.
    pub fn enables(&self, service: QuickwitService) -> (enabled: bool)
        ensures
            enabled == self.spec_enables(service),
    {
        let mut i: usize = 0;
        while i < self.enabled_services.len()
            invariant
                i <= self.enabled_services.len(),
                forall|j: int| 0 <= j < i ==> self.enabled_services@[j] != service,
            decreases self.enabled_services.len() - i,
        {
            if self.enabled_services[i] == service {
                return true;
            }
            i = i + 1;
        }
        false
    }
}

/// A client of one of the services of the cluster.
pub trait Service: Clone + Send + Sync + 'static {
    /// The service of the client.
    fn qw_service() -> QuickwitService;

    /// Builds a client from an address.
    fn build(addr: SocketAddr) -> Result<Self, anyhow::Error>;
}

/// The change for a client of `addr` whose building came to `built`.
pub open spec fn insertion_of<T, E>(addr: SocketAddr, built: Result<T, E>) -> DiscoverResult<
    SocketAddr,
    T,
    E,
> {
    match built {
        Ok(client) => Ok(Change::Insert(addr, client)),
        Err(err) => Err(err),
    }
}

/// The change for a client of `addr` whose building came to `built`.
pub fn insertion<T, E>(addr: SocketAddr, built: Result<T, E>) -> (change: DiscoverResult<
    SocketAddr,
    T,
    E,
>)
    ensures
        change == insertion_of(addr, built),
{
    match built {
        Ok(client) => Ok(Change::Insert(addr, client)),
        Err(err) => Err(err),
    }
}

/// Whether `item` is what the stream of `T` makes of `polled`, what the queue of changes held.
///
/// A removal is passed on as it is. A new member that runs the service of `T` is passed on with
/// the client that `T` builds for its address, or with why there is none. For a new member that
/// does not run the service there is nothing to pass on. While the queue is empty, and once it is
/// closed, the stream waits.
pub open spec fn discovered<T: Service>(
    polled: Poll<Option<Change<SocketAddr, ClusterMember>>>,
    item: Poll<Option<DiscoverResult<SocketAddr, T, anyhow::Error>>>,
) -> bool {
    match polled {
        Poll::Pending => item is Pending,
        Poll::Ready(None) => item is Pending,
        Poll::Ready(Some(Change::Insert(addr, member))) => exists|service: QuickwitService| #[trigger]
            call_ensures(T::qw_service, (), service) && if member.spec_enables(service) {
                exists|built: Result<T, anyhow::Error>| #[trigger]
                    call_ensures(T::build, (addr,), built) && item == Poll::Ready(
                        Some(insertion_of(addr, built)),
                    )
            } else {
                item matches Poll::Ready(None)
            },
        Poll::Ready(Some(Change::Remove(addr))) => {
            item matches Poll::Ready(Some(Ok(Change::Remove(removed)))) && removed == addr
        },
    }
}

/// The changes that are taken off the queue once it answered `polled`, `taken` being those taken
/// before.
pub open spec fn taken_after(
    taken: Seq<Change<SocketAddr, ClusterMember>>,
    polled: Poll<Option<Change<SocketAddr, ClusterMember>>>,
) -> Seq<Change<SocketAddr, ClusterMember>> {
    match polled {
        Poll::Ready(Some(change)) => taken.push(change),
        _ => taken,
    }
}

/// Whether `polled` is an answer that moves a queue from `before` to `after`: by the one change that
/// it holds, or not at all. A queue that was found closed stays so and holds no change any more.
pub open spec fn answered(
    before: Receiver<Change<SocketAddr, ClusterMember>>,
    after: Receiver<Change<SocketAddr, ClusterMember>>,
    polled: Poll<Option<Change<SocketAddr, ClusterMember>>>,
) -> bool {
    &&& taken_changes(after) == taken_after(taken_changes(before), polled)
    &&& found_closed(after) == (found_closed(before) || (polled matches Poll::Ready(None)))
    &&& found_closed(before) ==> !(polled matches Poll::Ready(Some(_)))
}

/// Whether `item` is what the stream of `T` makes of an answer that moves its queue from `before`
/// to `after`.
pub open spec fn polled_once<T: Service>(
    before: Receiver<Change<SocketAddr, ClusterMember>>,
    after: Receiver<Change<SocketAddr, ClusterMember>>,
    item: Poll<Option<DiscoverResult<SocketAddr, T, anyhow::Error>>>,
) -> bool {
    exists|polled: Poll<Option<Change<SocketAddr, ClusterMember>>>| #[trigger]
        discovered::<T>(polled, item) && answered(before, after, polled)
}

/// The items that are more than waiting, in order.
pub open spec fn ready_items<I>(items: Seq<Poll<I>>) -> Seq<Poll<I>>
    decreases items.len(),
{
    if items.len() == 0 {
        seq![]
    } else if items.last() is Ready {
        ready_items(items.drop_last()).push(items.last())
    } else {
        ready_items(items.drop_last())
    }
}

/// The clients of a service, as the members that run it come and go.
#[verifier::reject_recursive_types(T)]
pub struct DiscoverServiceStream<T: Service> {
    changes: Receiver<Change<SocketAddr, ClusterMember>>,
    _phantom: PhantomData<T>,
}

impl<T: Service> DiscoverServiceStream<T> {
    /// The queue that the stream takes the changes of the cluster from.
    pub closed spec fn changes(&self) -> Receiver<Change<SocketAddr, ClusterMember>> {
        self.changes
    }

    /// A stream that takes the changes of the cluster from `changes`.
    pub fn new(changes: Receiver<Change<SocketAddr, ClusterMember>>) -> (stream: Self)
        ensures
            stream.changes() == changes,
    {
        DiscoverServiceStream { changes, _phantom: PhantomData }
    }

    /// What the stream makes of `polled`, what the queue of changes held.
    pub fn discover(polled: Poll<Option<Change<SocketAddr, ClusterMember>>>) -> (item: Poll<
        Option<DiscoverResult<SocketAddr, T, anyhow::Error>>,
    >)
        ensures
            discovered::<T>(polled, item),
    {
        match polled {
            Poll::Pending | Poll::Ready(None) => Poll::Pending,
            Poll::Ready(Some(change)) => match change {
                Change::Insert(address, cluster_member) => {
                    if cluster_member.enables(T::qw_service()) {
                        Poll::Ready(Some(insertion(address, T::build(address))))
                    } else {
                        Poll::Ready(None)
                    }
                },
                Change::Remove(address) => Poll::Ready(Some(Ok(Change::Remove(address)))),
            },
        }
    }

    /// Polls the queue once, on behalf of `cx`, and makes an item of its answer. Which answer comes
    /// depends on when the queue is polled.
    pub fn poll_next(&mut self, cx: &mut Context<'_>) -> (item: Poll<
        Option<DiscoverResult<SocketAddr, T, anyhow::Error>>,
    >)
        ensures
            exists|
                receiver: &mut Receiver<Change<SocketAddr, ClusterMember>>,
                context: &mut Context<'_>,
                polled: Poll<Option<Change<SocketAddr, ClusterMember>>>,
            |
                #[trigger] call_ensures(poll_changes, (receiver, context), polled) && *receiver
                    == old(self).changes() && *final(receiver) == final(self).changes() && *context
                    == *old(cx) && *final(context) == *final(cx) && discovered::<T>(polled, item),
            polled_once::<T>(old(self).changes(), final(self).changes(), item),
            found_closed(old(self).changes()) ==> item is Pending,
    {
        let polled = poll_changes(&mut self.changes, cx);
        Self::discover(polled)
    }
}

/// What a search found.
#[derive(Clone, Debug)]
pub struct SearchResponse {
    /// How many documents match.
    pub num_hits: u64,
    /// The documents that are returned, as JSON.
    pub hits: Vec<String>,
    /// How long the search took.
    pub elapsed_time_micros: u64,
    /// What went wrong in parts of the search.
    pub errors: Vec<String>,
}

/// A [`SearchResponse`] as a mathematical value.
pub struct SearchResponseView {
    pub num_hits: u64,
    pub hits: Seq<Seq<char>>,
    pub elapsed_time_micros: u64,
    pub errors: Seq<Seq<char>>,
}

impl SearchResponseView {
    /// The response of a search that found nothing and in which nothing went wrong.
    pub open spec fn empty() -> Self {
        SearchResponseView {
            num_hits: 0,
            hits: Seq::empty(),
            elapsed_time_micros: 0,
            errors: Seq::empty(),
        }
    }
}

impl View for SearchResponse {
    type V = SearchResponseView;

    open spec fn view(&self) -> SearchResponseView {
        SearchResponseView {
            num_hits: self.num_hits,
            hits: Seq::new(self.hits@.len(), |i: int| self.hits@[i]@),
            elapsed_time_micros: self.elapsed_time_micros,
            errors: Seq::new(self.errors@.len(), |i: int| self.errors@[i]@),
        }
    }
}

impl Default for SearchResponse {
    fn default() -> (response: Self)
        ensures
            response@ == SearchResponseView::empty(),
    {
        let response = SearchResponse {
            num_hits: 0,
            hits: Vec::new(),
            elapsed_time_micros: 0,
            errors: Vec::new(),
        };
        assert(response@.hits =~= Seq::empty());
        assert(response@.errors =~= Seq::empty());
        response
    }
}

/// A client of the search service in the same process, which `inner` leads to.
#[derive(Clone, Copy, Debug)]
pub struct LocalSearchClient<M> {
    pub inner: M,
}

/// What the local client answers.
pub open spec fn local_answer() -> Result<tonic::Response<SearchResponse>, tonic::Status> {
    Ok(response_of(SearchResponseView::empty()))
}

impl<M> LocalSearchClient<M> {
    /// Answers a search. The local client finds nothing, whatever the request, and does not ask
    /// `inner`.
    pub fn root_search<R>(&mut self, _request: R) -> (answer: Result<
        tonic::Response<SearchResponse>,
        tonic::Status,
    >)
        ensures
            answer == local_answer(),
            *final(self) == *old(self),
    {
        let response = SearchResponse::default();
        Ok(new_response(response))
    }
}

/// A client reaches the users of the stream only for a member that is new, that runs the service,
/// and with the client that was built for the address of that member.
pub proof fn law_only_members_that_run_the_service_are_inserted<T: Service>(
    polled: Poll<Option<Change<SocketAddr, ClusterMember>>>,
    item: Poll<Option<DiscoverResult<SocketAddr, T, anyhow::Error>>>,
    addr: SocketAddr,
    client: T,
)
    requires
        discovered(polled, item),
        item matches Poll::Ready(Some(Ok(Change::Insert(a, c)))) && a == addr && c == client,
    ensures
        polled matches Poll::Ready(Some(Change::Insert(new_addr, member))) && new_addr == addr
            && exists|service: QuickwitService| #[trigger]
            call_ensures(T::qw_service, (), service) && member.spec_enables(service),
        call_ensures(T::build, (addr,), Ok(client)),
{
}

/// The stream waits exactly while the queue has no change for it, and otherwise says exactly one
/// thing of the change: that the address of a member is gone, that a member does not run the
/// service, or what came of building a client.
pub proof fn law_every_change_is_accounted_for<T: Service>(
    polled: Poll<Option<Change<SocketAddr, ClusterMember>>>,
    item: Poll<Option<DiscoverResult<SocketAddr, T, anyhow::Error>>>,
)
    requires
        discovered(polled, item),
    ensures
        item is Pending <==> (polled is Pending || polled matches Poll::Ready(None)),
        item matches Poll::Ready(Some(Ok(Change::Remove(gone)))) ==> (polled matches Poll::Ready(
            Some(Change::Remove(removed)),
        ) && removed == gone),
        polled matches Poll::Ready(Some(Change::Remove(removed))) ==> (item matches Poll::Ready(
            Some(Ok(Change::Remove(gone))),
        ) && gone == removed),
        item matches Poll::Ready(None) ==> (polled matches Poll::Ready(
            Some(Change::Insert(_, member)),
        ) && exists|service: QuickwitService| #[trigger]
            call_ensures(T::qw_service, (), service) && !member.spec_enables(service)),
        item matches Poll::Ready(Some(Err(err))) ==> (polled matches Poll::Ready(
            Some(Change::Insert(addr, _)),
        ) && call_ensures(T::build, (addr,), Err(err))),
{
}

/// However often the stream is polled, and whatever the items in between, the changes that it took
/// off its queue are accounted for in order, one item each: none is lost, repeated or invented. In
/// particular a member that does not run the service does not keep the stream from the changes
/// after it.
///
/// `streams` is the stream before each poll and after the last, `items` what each poll returned.
pub proof fn law_polls_account_for_the_changes_in_order<T: Service>(
    streams: Seq<DiscoverServiceStream<T>>,
    items: Seq<Poll<Option<DiscoverResult<SocketAddr, T, anyhow::Error>>>>,
)
    requires
        streams.len() == items.len() + 1,
        forall|i: int|
            0 <= i < items.len() ==> polled_once::<T>(
                streams[i].changes(),
                streams[i + 1].changes(),
                #[trigger] items[i],
            ),
    ensures
        ({
            let before = taken_changes(streams.first().changes());
            let after = taken_changes(streams.last().changes());
            &&& before.is_prefix_of(after)
            &&& ready_items(items).len() == after.len() - before.len()
            &&& forall|k: int|
                0 <= k < ready_items(items).len() ==> discovered::<T>(
                    Poll::Ready(Some(after[before.len() + k])),
                    #[trigger] ready_items(items)[k],
                )
        }),
    decreases items.len(),
{
    let before = taken_changes(streams.first().changes());
    let after = taken_changes(streams.last().changes());
    if items.len() > 0 {
        let last = items.len() - 1;
        let middle = taken_changes(streams[last].changes());
        assert forall|i: int| 0 <= i < items.drop_last().len() implies polled_once::<T>(
            streams.drop_last()[i].changes(),
            streams.drop_last()[i + 1].changes(),
            #[trigger] items.drop_last()[i],
        ) by {
            assert(items.drop_last()[i] == items[i]);
        }
        law_polls_account_for_the_changes_in_order(streams.drop_last(), items.drop_last());
        assert(polled_once::<T>(streams[last].changes(), streams.last().changes(), items[last]));
        assert forall|k: int| 0 <= k < ready_items(items).len() implies discovered::<T>(
            Poll::Ready(Some(after[before.len() + k])),
            #[trigger] ready_items(items)[k],
        ) by {
            if k < ready_items(items.drop_last()).len() {
                assert(ready_items(items)[k] == ready_items(items.drop_last())[k]);
                assert(after[before.len() + k] == middle[before.len() + k]);
            }
        }
    }
}

/// Once the queue was found closed, every later poll waits.
///
/// `streams` is the stream before each poll and after the last, `items` what each poll returned.
pub proof fn law_a_closed_queue_makes_the_stream_wait<T: Service>(
    streams: Seq<DiscoverServiceStream<T>>,
    items: Seq<Poll<Option<DiscoverResult<SocketAddr, T, anyhow::Error>>>>,
    closed: int,
    later: int,
)
    requires
        streams.len() == items.len() + 1,
        forall|i: int|
            0 <= i < items.len() ==> polled_once::<T>(
                streams[i].changes(),
                streams[i + 1].changes(),
                #[trigger] items[i],
            ),
        0 <= closed <= later < items.len(),
        found_closed(streams[closed].changes()),
    ensures
        items[later] is Pending,
        found_closed(streams[later + 1].changes()),
        taken_changes(streams[later + 1].changes()) == taken_changes(streams[closed].changes()),
    decreases later,
{
    if closed < later {
        law_a_closed_queue_makes_the_stream_wait(streams, items, closed, later - 1);
    }
    assert(polled_once::<T>(streams[later].changes(), streams[later + 1].changes(), items[later]));
}

/// The local client answers any two requests alike, whatever it leads to, and never with a failure.
pub proof fn law_the_local_client_answers_alike<M, R, N, Q>(
    answer: Result<tonic::Response<SearchResponse>, tonic::Status>,
    other_answer: Result<tonic::Response<SearchResponse>, tonic::Status>,
)
    requires
        exists|client: &mut LocalSearchClient<M>, request: R| #[trigger]
            call_ensures(LocalSearchClient::<M>::root_search::<R>, (client, request), answer),
        exists|client: &mut LocalSearchClient<N>, request: Q| #[trigger]
            call_ensures(LocalSearchClient::<N>::root_search::<Q>, (client, request), other_answer),
    ensures
        answer == other_answer,
        answer is Ok,
{
}

/// A member runs a service exactly if the service stands among its enabled services, at any
/// position.
pub proof fn law_enables(member: ClusterMember, service: QuickwitService, enabled: bool)
    requires
        call_ensures(ClusterMember::enables, (&member, service), enabled),
    ensures
        enabled <==> exists|i: int|
            0 <= i < member.enabled_services@.len() && #[trigger] member.enabled_services@[i]
                == service,
        enabled <==> member.spec_enables(service),
{
}

/// Two members with the same services, in whatever order and however often each, run the same; and
/// a member that has all of the services of another, and maybe more, runs all that the other runs.
pub proof fn law_enabling_rests_on_the_services_alone(
    member: ClusterMember,
    larger: ClusterMember,
    service: QuickwitService,
    enabled: bool,
    enabled_in_larger: bool,
)
    requires
        call_ensures(ClusterMember::enables, (&member, service), enabled),
        call_ensures(ClusterMember::enables, (&larger, service), enabled_in_larger),
        member.enabled_services@.to_set().subset_of(larger.enabled_services@.to_set()),
    ensures
        enabled ==> enabled_in_larger,
        larger.enabled_services@.to_set() == member.enabled_services@.to_set() ==> enabled
            == enabled_in_larger,
{
    assert(member.enabled_services@.to_set().contains(service)
        <==> member.enabled_services@.contains(service));
    assert(larger.enabled_services@.to_set().contains(service)
        <==> larger.enabled_services@.contains(service));
}

/// A client that was built is inserted under the address that it was built for; if there is none,
/// why is told.
pub proof fn law_insertion<T, E>(
    addr: SocketAddr,
    built: Result<T, E>,
    change: DiscoverResult<SocketAddr, T, E>,
)
    requires
        call_ensures(insertion::<T, E>, (addr, built), change),
    ensures
        built matches Ok(client) ==> (change matches Ok(Change::Insert(a, c)) && a == addr && c
            == client),
        built matches Err(err) ==> (change matches Err(e) && e == err),
{
}

/// What an answer of the queue comes to, in terms of the services that the new member has enabled
/// and of what building a client comes to.
pub proof fn law_discovered<T: Service>(
    polled: Poll<Option<Change<SocketAddr, ClusterMember>>>,
    item: Poll<Option<DiscoverResult<SocketAddr, T, anyhow::Error>>>,
)
    requires
        discovered(polled, item),
    ensures
        polled is Pending ==> item is Pending,
        polled matches Poll::Ready(None) ==> item is Pending,
        polled matches Poll::Ready(Some(Change::Remove(addr))) ==> (item matches Poll::Ready(
            Some(Ok(Change::Remove(gone))),
        ) && gone == addr),
        polled matches Poll::Ready(Some(Change::Insert(addr, member))) ==> exists|
            service: QuickwitService,
        | #[trigger]
            call_ensures(T::qw_service, (), service) && ((exists|i: int|
                0 <= i < member.enabled_services@.len() && #[trigger] member.enabled_services@[i]
                    == service) ==> exists|built: Result<T, anyhow::Error>| #[trigger]
                call_ensures(T::build, (addr,), built) && (built matches Ok(client) ==> (
                item matches Poll::Ready(Some(Ok(Change::Insert(a, c)))) && a == addr && c
                    == client)) && (built matches Err(err) ==> (item matches Poll::Ready(
                    Some(Err(e)),
                ) && e == err))) && ((forall|i: int|
                0 <= i < member.enabled_services@.len() ==> #[trigger] member.enabled_services@[i]
                    != service) ==> item matches Poll::Ready(None)),
{
    if let Poll::Ready(Some(Change::Insert(addr, member))) = polled {
        let service = choose|service: QuickwitService| #[trigger]
            call_ensures(T::qw_service, (), service) && if member.spec_enables(service) {
                exists|built: Result<T, anyhow::Error>| #[trigger]
                    call_ensures(T::build, (addr,), built) && item == Poll::Ready(
                        Some(insertion_of(addr, built)),
                    )
            } else {
                item matches Poll::Ready(None)
            };
        assert(call_ensures(T::qw_service, (), service));
        if exists|i: int|
            0 <= i < member.enabled_services@.len() && #[trigger] member.enabled_services@[i]
                == service {
            assert(member.spec_enables(service));
            let built = choose|built: Result<T, anyhow::Error>| #[trigger]
                call_ensures(T::build, (addr,), built) && item == Poll::Ready(
                    Some(insertion_of(addr, built)),
                );
            assert(call_ensures(T::build, (addr,), built));
        }
    }
}

/// The stream makes of an answer of the queue what [`law_discovered`] says.
pub proof fn law_discover<T: Service>(
    polled: Poll<Option<Change<SocketAddr, ClusterMember>>>,
    item: Poll<Option<DiscoverResult<SocketAddr, T, anyhow::Error>>>,
)
    requires
        call_ensures(DiscoverServiceStream::<T>::discover, (polled,), item),
    ensures
        polled is Pending ==> item is Pending,
        polled matches Poll::Ready(None) ==> item is Pending,
        polled matches Poll::Ready(Some(Change::Remove(addr))) ==> (item matches Poll::Ready(
            Some(Ok(Change::Remove(gone))),
        ) && gone == addr),
        polled matches Poll::Ready(Some(Change::Insert(addr, member))) ==> exists|
            service: QuickwitService,
        | #[trigger]
            call_ensures(T::qw_service, (), service) && ((exists|i: int|
                0 <= i < member.enabled_services@.len() && #[trigger] member.enabled_services@[i]
                    == service) ==> exists|built: Result<T, anyhow::Error>| #[trigger]
                call_ensures(T::build, (addr,), built) && (built matches Ok(client) ==> (
                item matches Poll::Ready(Some(Ok(Change::Insert(a, c)))) && a == addr && c
                    == client)) && (built matches Err(err) ==> (item matches Poll::Ready(
                    Some(Err(e)),
                ) && e == err))) && ((forall|i: int|
                0 <= i < member.enabled_services@.len() ==> #[trigger] member.enabled_services@[i]
                    != service) ==> item matches Poll::Ready(None)),
{
    law_discovered(polled, item);
}

/// A client is inserted only for a new member that has the service among its enabled services.
pub proof fn law_an_inserted_member_has_the_service_enabled<T: Service>(
    addr: SocketAddr,
    member: ClusterMember,
    item: Poll<Option<DiscoverResult<SocketAddr, T, anyhow::Error>>>,
)
    requires
        call_ensures(
            DiscoverServiceStream::<T>::discover,
            (Poll::Ready(Some(Change::Insert(addr, member))),),
            item,
        ),
        item matches Poll::Ready(Some(_)),
    ensures
        exists|service: QuickwitService, i: int|
            #![trigger call_ensures(T::qw_service, (), service), member.enabled_services@[i]]
            call_ensures(T::qw_service, (), service) && 0 <= i < member.enabled_services@.len()
                && member.enabled_services@[i] == service,
{
    let polled: Poll<Option<Change<SocketAddr, ClusterMember>>> = Poll::Ready(
        Some(Change::Insert(addr, member)),
    );
    law_discover(polled, item);
    let service = choose|service: QuickwitService| #[trigger]
        call_ensures(T::qw_service, (), service) && exists|i: int|
            0 <= i < member.enabled_services@.len() && #[trigger] member.enabled_services@[i]
                == service;
    let i = choose|i: int|
        0 <= i < member.enabled_services@.len() && #[trigger] member.enabled_services@[i]
            == service;
    assert(call_ensures(T::qw_service, (), service) && member.enabled_services@[i] == service);
}

/// One poll of the stream polls its queue once, on behalf of the same context. It waits without
/// taking anything, or takes exactly the next change and hands on what comes of that one. Once the
/// queue was found closed, it waits.
pub proof fn law_poll_next<T: Service>(
    stream: &mut DiscoverServiceStream<T>,
    cx: &mut Context<'_>,
    item: Poll<Option<DiscoverResult<SocketAddr, T, anyhow::Error>>>,
)
    requires
        call_ensures(DiscoverServiceStream::<T>::poll_next, (stream, cx), item),
    ensures
        exists|
            receiver: &mut Receiver<Change<SocketAddr, ClusterMember>>,
            context: &mut Context<'_>,
            polled: Poll<Option<Change<SocketAddr, ClusterMember>>>,
        |
            #[trigger] call_ensures(poll_changes, (receiver, context), polled) && *receiver == old(
                stream,
            ).changes() && *final(receiver) == final(stream).changes() && *context == *old(cx)
                && *final(context) == *final(cx) && (item is Ready <==> polled matches Poll::Ready(
                Some(_),
            )),
        item is Pending ==> taken_changes(final(stream).changes()) == taken_changes(
            old(stream).changes(),
        ),
        item is Ready ==> ({
            let before = taken_changes(old(stream).changes());
            let after = taken_changes(final(stream).changes());
            &&& after.len() == before.len() + 1
            &&& after.drop_last() == before
            &&& after.last() matches Change::Remove(addr) ==> (item matches Poll::Ready(
                Some(Ok(Change::Remove(gone))),
            ) && gone == addr)
            &&& item matches Poll::Ready(Some(Ok(Change::Remove(gone)))) ==> (
            after.last() matches Change::Remove(addr) && gone == addr)
            &&& item matches Poll::Ready(Some(Ok(Change::Insert(a, client)))) ==> (
            after.last() matches Change::Insert(addr, _) && a == addr && call_ensures(
                T::build,
                (addr,),
                Ok(client),
            ))
            &&& item matches Poll::Ready(Some(Err(err))) ==> (
            after.last() matches Change::Insert(addr, _) && call_ensures(
                T::build,
                (addr,),
                Err(err),
            ))
            &&& after.last() matches Change::Insert(_, member) ==> exists|service: QuickwitService|
                #[trigger]
                call_ensures(T::qw_service, (), service) && (item matches Poll::Ready(None)
                    <==> forall|i: int|
                    0 <= i < member.enabled_services@.len()
                        ==> #[trigger] member.enabled_services@[i] != service)
        }),
        found_closed(old(stream).changes()) ==> item is Pending && found_closed(
            final(stream).changes(),
        ),
{
    let before = taken_changes(old(stream).changes());
    let after = taken_changes(final(stream).changes());
    let (receiver, context, polled) = choose|
        receiver: &mut Receiver<Change<SocketAddr, ClusterMember>>,
        context: &mut Context<'_>,
        polled: Poll<Option<Change<SocketAddr, ClusterMember>>>,
    |
        #[trigger] call_ensures(poll_changes, (receiver, context), polled) && *receiver == old(
            stream,
        ).changes() && *final(receiver) == final(stream).changes() && *context == *old(cx)
            && *final(context) == *final(cx) && discovered::<T>(polled, item);
    law_discovered(polled, item);
    if let Poll::Ready(Some(change)) = polled {
        assert(after == before.push(change));
        assert(after.drop_last() =~= before);
    }
}

/// A new stream takes its changes from the queue that it was made with.
pub proof fn law_new_stream<T: Service>(
    changes: Receiver<Change<SocketAddr, ClusterMember>>,
    stream: DiscoverServiceStream<T>,
)
    requires
        call_ensures(DiscoverServiceStream::<T>::new, (changes,), stream),
    ensures
        stream.changes() == changes,
{
}

/// The view of a response keeps all that the response holds.
pub proof fn law_search_response_view(response: SearchResponse)
    ensures
        response@.num_hits == response.num_hits,
        response@.elapsed_time_micros == response.elapsed_time_micros,
        response@.hits.len() == response.hits@.len(),
        forall|i: int|
            0 <= i < response.hits@.len() ==> #[trigger] response@.hits[i] == response.hits@[i]@,
        response@.errors.len() == response.errors@.len(),
        forall|i: int|
            0 <= i < response.errors@.len() ==> #[trigger] response@.errors[i]
                == response.errors@[i]@,
{
}

/// The default response is that of a search that found nothing, took no time and had no errors.
pub proof fn law_default_search_response(response: SearchResponse)
    requires
        call_ensures(<SearchResponse as Default>::default, (), response),
    ensures
        response.num_hits == 0,
        response.hits@.len() == 0,
        response.elapsed_time_micros == 0,
        response.errors@.len() == 0,
{
    let view = response@;
    assert(view.hits.len() == 0);
    assert(view.errors.len() == 0);
}

/// Whatever the request and whatever the local client leads to, it answers with the response around
/// the message that a default response is, and stays as it is.
pub proof fn law_root_search<M, R>(
    client: &mut LocalSearchClient<M>,
    request: R,
    answer: Result<tonic::Response<SearchResponse>, tonic::Status>,
    message: SearchResponse,
)
    requires
        call_ensures(LocalSearchClient::<M>::root_search::<R>, (client, request), answer),
        message.num_hits == 0,
        message.hits@.len() == 0,
        message.elapsed_time_micros == 0,
        message.errors@.len() == 0,
    ensures
        answer matches Ok(response) && response == response_of(message@),
        final(client).inner == old(client).inner,
{
    assert(message@.hits =~= Seq::empty());
    assert(message@.errors =~= Seq::empty());
}

} // verus!
