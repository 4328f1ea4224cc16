use std::sync::Arc;
use std::task::{Context, Poll, Wake, Waker};

use quickwit_clients::service_discovery::{
    insertion, ClusterMember, DiscoverServiceStream, IpAddr, LocalSearchClient, QuickwitService,
    Service, SocketAddr,
};
use tokio::sync::mpsc;
use tower::discover::Change;

/// A client of the search service. No client can be built for port 0.
#[derive(Clone, Debug, PartialEq)]
struct Searcher {
    addr: SocketAddr,
}

impl Service for Searcher {
    fn qw_service() -> QuickwitService {
        QuickwitService::Searcher
    }

    fn build(addr: SocketAddr) -> Result<Self, anyhow::Error> {
        if addr.port == 0 {
            return Err(anyhow::Error::msg("no port"));
        }
        Ok(Searcher { addr })
    }
}

struct Nobody;

impl Wake for Nobody {
    fn wake(self: Arc<Self>) {}
}

fn addr(port: u16) -> SocketAddr {
    SocketAddr { ip: IpAddr::V4(0x7f000001), port }
}

fn member(enabled_services: Vec<QuickwitService>) -> ClusterMember {
    ClusterMember { enabled_services }
}

fn searcher() -> ClusterMember {
    member(vec![QuickwitService::Indexer, QuickwitService::Searcher])
}

#[test]
fn enabled_services() {
    let all = [
        QuickwitService::ControlPlane,
        QuickwitService::Indexer,
        QuickwitService::Searcher,
        QuickwitService::Janitor,
        QuickwitService::Metastore,
    ];
    for service in all {
        assert!(!member(vec![]).enables(service));
        assert!(member(all.to_vec()).enables(service));
        assert!(member(vec![service, service]).enables(service));
        for other in all {
            assert_eq!(member(vec![other]).enables(service), other == service);
        }
    }
}

#[test]
fn a_removal_is_passed_on() {
    let item = DiscoverServiceStream::<Searcher>::discover(Poll::Ready(Some(Change::Remove(
        addr(7),
    ))));
    assert!(matches!(item, Poll::Ready(Some(Ok(Change::Remove(a)))) if a == addr(7)));
}

#[test]
fn a_member_that_runs_the_service_is_inserted() {
    let item = DiscoverServiceStream::<Searcher>::discover(Poll::Ready(Some(Change::Insert(
        addr(7),
        searcher(),
    ))));
    assert!(matches!(
        item,
        Poll::Ready(Some(Ok(Change::Insert(a, client))))
            if a == addr(7) && client == Searcher { addr: addr(7) }
    ));
}

#[test]
fn a_client_that_cannot_be_built_is_an_error() {
    let item = DiscoverServiceStream::<Searcher>::discover(Poll::Ready(Some(Change::Insert(
        addr(0),
        searcher(),
    ))));
    assert!(matches!(item, Poll::Ready(Some(Err(err))) if err.to_string() == "no port"));
}

#[test]
fn a_member_that_does_not_run_the_service_is_nothing() {
    for services in [vec![], vec![QuickwitService::Indexer, QuickwitService::Metastore]] {
        // The address would not do, but no client is built.
        let item = DiscoverServiceStream::<Searcher>::discover(Poll::Ready(Some(
            Change::Insert(addr(0), member(services)),
        )));
        assert!(matches!(item, Poll::Ready(None)));
    }
}

#[test]
fn without_a_change_the_stream_waits() {
    assert!(DiscoverServiceStream::<Searcher>::discover(Poll::Pending).is_pending());
    assert!(DiscoverServiceStream::<Searcher>::discover(Poll::Ready(None)).is_pending());
}

#[test]
fn insertions() {
    assert!(matches!(
        insertion::<u8, u8>(addr(1), Ok(2)),
        Ok(Change::Insert(a, 2)) if a == addr(1)
    ));
    assert!(matches!(insertion::<u8, u8>(addr(1), Err(3)), Err(3)));
}

#[test]
fn the_stream_follows_its_queue() {
    let waker = Waker::from(Arc::new(Nobody));
    let mut cx = Context::from_waker(&waker);
    let (tx, rx) = mpsc::channel(4);
    let mut stream = DiscoverServiceStream::<Searcher>::new(rx);
    assert!(stream.poll_next(&mut cx).is_pending());

    tx.try_send(Change::Insert(addr(7), searcher())).unwrap();
    tx.try_send(Change::Insert(addr(8), member(vec![]))).unwrap();
    tx.try_send(Change::Remove(addr(7))).unwrap();
    assert!(matches!(
        stream.poll_next(&mut cx),
        Poll::Ready(Some(Ok(Change::Insert(a, _)))) if a == addr(7)
    ));
    assert!(matches!(stream.poll_next(&mut cx), Poll::Ready(None)));
    assert!(matches!(
        stream.poll_next(&mut cx),
        Poll::Ready(Some(Ok(Change::Remove(a)))) if a == addr(7)
    ));
    assert!(stream.poll_next(&mut cx).is_pending());

    tx.try_send(Change::Remove(addr(8))).unwrap();
    drop(tx);
    assert!(matches!(
        stream.poll_next(&mut cx),
        Poll::Ready(Some(Ok(Change::Remove(a)))) if a == addr(8)
    ));
    for _ in 0..5 {
        assert!(stream.poll_next(&mut cx).is_pending());
    }
}

#[test]
fn every_change_is_handled_once_and_in_order() {
    let waker = Waker::from(Arc::new(Nobody));
    let mut cx = Context::from_waker(&waker);
    let (tx, rx) = mpsc::channel(64);
    let mut stream = DiscoverServiceStream::<Searcher>::new(rx);
    for port in 1..=10 {
        tx.try_send(Change::Insert(addr(port), searcher())).unwrap();
        tx.try_send(Change::Insert(addr(port), member(vec![QuickwitService::Janitor]))).unwrap();
        tx.try_send(Change::Insert(addr(0), searcher())).unwrap();
        tx.try_send(Change::Remove(addr(port))).unwrap();
    }
    for port in 1..=10 {
        assert!(matches!(
            stream.poll_next(&mut cx),
            Poll::Ready(Some(Ok(Change::Insert(a, _)))) if a == addr(port)
        ));
        assert!(matches!(stream.poll_next(&mut cx), Poll::Ready(None)));
        assert!(matches!(stream.poll_next(&mut cx), Poll::Ready(Some(Err(_)))));
        assert!(matches!(
            stream.poll_next(&mut cx),
            Poll::Ready(Some(Ok(Change::Remove(a)))) if a == addr(port)
        ));
    }
    assert!(stream.poll_next(&mut cx).is_pending());
}

#[test]
fn the_local_client_finds_nothing_whatever_the_request() {
    let mut client = LocalSearchClient { inner: "mailbox" };
    for request in ["", "any request"] {
        let response = client.root_search(request).unwrap();
        assert!(response.metadata().is_empty());
        let found = response.into_inner();
        assert_eq!(found.num_hits, 0);
        assert!(found.hits.is_empty());
        assert_eq!(found.elapsed_time_micros, 0);
        assert!(found.errors.is_empty());
        assert_eq!(client.inner, "mailbox");
    }
}
