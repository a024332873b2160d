use consumer::records::Ens;
use consumer::tns::Tns;
use consumer::tns_lookup::{TnsCall, TnsLookup, TnsReply, TnsStep};

const ADDRESS: [u8; 20] = [0x11; 20];
const RESOLVER: [u8; 20] = [0x22; 20];

fn next(step: TnsStep) -> (TnsLookup, TnsCall) {
    match step {
        TnsStep::Next { state, call } => (state, call),
        TnsStep::Finished { .. } => panic!("lookup finished early"),
    }
}

fn finished(step: TnsStep) -> Ens {
    match step {
        TnsStep::Finished { ens } => ens,
        TnsStep::Next { .. } => panic!("lookup did not finish"),
    }
}

fn at_primary_name() -> TnsLookup {
    let (state, _) = next(Tns::start_lookup(ADDRESS));
    let (state, _) = next(Tns::step(state, TnsReply::Resolver(Some(RESOLVER))));
    state
}

#[test]
fn lookup_starts_at_the_reverse_node() {
    let (state, call) = next(Tns::start_lookup(ADDRESS));
    let node = Tns::reverse_node(ADDRESS);
    match call {
        TnsCall::Resolver { node: asked } => assert_eq!(asked, node),
        _ => panic!("expected a resolver call"),
    }
    match state {
        TnsLookup::ReverseResolver { node: kept } => assert_eq!(kept, node),
        _ => panic!("expected the reverse resolver state"),
    }
}

#[test]
fn full_lookup_finds_name_and_avatar() {
    let (state, call) = next(Tns::step(at_primary_name(), TnsReply::Name(Some("alice".to_string()))));
    match call {
        TnsCall::Resolver { node } => assert_eq!(node, Tns::node_for_name("alice")),
        _ => panic!("expected the avatar resolver call"),
    }
    let (state, call) = next(Tns::step(state, TnsReply::Resolver(Some(RESOLVER))));
    match call {
        TnsCall::Text { resolver, node, key } => {
            assert_eq!(resolver, RESOLVER);
            assert_eq!(node, Tns::namehash("alice.trust"));
            assert_eq!(key, "avatar");
        }
        _ => panic!("expected the text call"),
    }
    let (state, call) = next(Tns::step(state, TnsReply::Text(Some("ipfs://avatar".to_string()))));
    match call {
        TnsCall::QueueUpload { url } => assert_eq!(url, "ipfs://avatar"),
        _ => panic!("expected the upload"),
    }
    let ens = finished(Tns::step(state, TnsReply::UploadQueued));
    assert_eq!(ens.name.as_deref(), Some("alice"));
    assert_eq!(ens.image.as_deref(), Some("ipfs://avatar"));
}

#[test]
fn primary_name_call_goes_to_the_reverse_node() {
    let (state, _) = next(Tns::start_lookup(ADDRESS));
    let (_, call) = next(Tns::step(state, TnsReply::Resolver(Some(RESOLVER))));
    match call {
        TnsCall::Name { resolver, node } => {
            assert_eq!(resolver, RESOLVER);
            assert_eq!(node, Tns::reverse_node(ADDRESS));
        }
        _ => panic!("expected the name call"),
    }
}

#[test]
fn zero_or_failed_reverse_resolver_gives_nothing() {
    for reply in [Some([0u8; 20]), None] {
        let (state, _) = next(Tns::start_lookup(ADDRESS));
        let ens = finished(Tns::step(state, TnsReply::Resolver(reply)));
        assert!(ens.name.is_none());
        assert!(ens.image.is_none());
    }
}

#[test]
fn empty_or_failed_name_gives_nothing() {
    for reply in [Some(String::new()), None] {
        let ens = finished(Tns::step(at_primary_name(), TnsReply::Name(reply)));
        assert!(ens.name.is_none());
        assert!(ens.image.is_none());
    }
}

#[test]
fn missing_avatar_keeps_the_name() {
    let (state, _) = next(Tns::step(at_primary_name(), TnsReply::Name(Some("bob".to_string()))));
    let ens = finished(Tns::step(state, TnsReply::Resolver(None)));
    assert_eq!(ens.name.as_deref(), Some("bob"));
    assert!(ens.image.is_none());

    let (state, _) = next(Tns::step(at_primary_name(), TnsReply::Name(Some("bob".to_string()))));
    let (state, _) = next(Tns::step(state, TnsReply::Resolver(Some(RESOLVER))));
    let ens = finished(Tns::step(state, TnsReply::Text(Some(String::new()))));
    assert_eq!(ens.name.as_deref(), Some("bob"));
    assert!(ens.image.is_none());
}
