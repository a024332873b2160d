use consumer::address::HexError;
use consumer::error::ConsumerError;
use consumer::records::Ens;
use consumer::resolver::{
    Account, Atom, AtomKind, ProcessAction, ProcessEvent, ProcessState, ProcessStep,
    ResolverConsumerMessage, ResolverMessageType,
};

const ACCOUNT_ID: &str = "0xf1016a7fe89eb9d244c3bfb270071b24619e36c6";

fn account(atom_id: Option<&str>) -> Account {
    Account {
        id: ACCOUNT_ID.to_string(),
        atom_id: atom_id.map(|s| s.to_string()),
        label: "old".to_string(),
        image: None,
    }
}

fn atom(kind: AtomKind, data: Option<&str>) -> Atom {
    Atom {
        id: "0xabc".to_string(),
        atom_type: kind,
        data: data.map(|s| s.to_string()),
        label: None,
        image: None,
    }
}

fn updated(image: Option<&str>) -> Atom {
    let mut a = atom(AtomKind::Other, None);
    a.image = image.map(|s| s.to_string());
    a
}

fn ens(name: Option<&str>, image: Option<&str>) -> Ens {
    Ens { name: name.map(|s| s.to_string()), image: image.map(|s| s.to_string()) }
}

fn next(step: ProcessStep) -> (ProcessState, ProcessAction) {
    match step {
        ProcessStep::Next { state, action } => (state, action),
        ProcessStep::Finished(r) => panic!("finished early: {:?}", r),
    }
}

fn result(step: ProcessStep) -> Result<(), ConsumerError> {
    match step {
        ProcessStep::Finished(r) => r,
        ProcessStep::Next { .. } => panic!("processing did not finish"),
    }
}

fn after_fetch(kind: AtomKind, data: Option<&str>) -> ProcessStep {
    let message = ResolverConsumerMessage::new_atom("0xabc".to_string());
    let (state, action) = next(message.message.first_step());
    assert!(matches!(action, ProcessAction::FetchAtom { ref atom_id } if atom_id == "0xabc"));
    ResolverMessageType::next_step(state, ProcessEvent::AtomLoaded(Some(atom(kind, data))))
}

#[test]
fn missing_atom_is_an_error() {
    let (state, _) = next(ResolverMessageType::Atom("0xabc".to_string()).first_step());
    let r = result(ResolverMessageType::next_step(state, ProcessEvent::AtomLoaded(None)));
    assert!(matches!(r, Err(ConsumerError::AtomNotFound)));
}

#[test]
fn account_atom_without_data_is_an_error() {
    let r = result(after_fetch(AtomKind::Account, None));
    assert!(matches!(r, Err(ConsumerError::AtomDataNotFound)));
}

#[test]
fn account_atom_fetches_the_account_it_names() {
    let (state, action) = next(after_fetch(AtomKind::Account, Some(ACCOUNT_ID)));
    assert!(matches!(action, ProcessAction::FetchAccount { ref account_id } if account_id == ACCOUNT_ID));
    let r = result(ResolverMessageType::next_step(state, ProcessEvent::AccountLoaded(None)));
    assert!(matches!(r, Err(ConsumerError::AccountNotFound)));
}

#[test]
fn caip22_atom_is_resolved_written_then_marked() {
    let (state, action) = next(after_fetch(AtomKind::Caip22, None));
    assert!(matches!(action, ProcessAction::ResolveCaip22 { ref atom } if atom.id == "0xabc"));
    let (state, action) = next(ResolverMessageType::next_step(state, ProcessEvent::Done));
    assert!(matches!(action, ProcessAction::WriteCaip22Metadata { ref atom } if atom.id == "0xabc"));
    let (state, action) = next(ResolverMessageType::next_step(state, ProcessEvent::Done));
    assert!(matches!(action, ProcessAction::MarkResolved { ref atom_id } if atom_id == "0xabc"));
    assert!(matches!(result(ResolverMessageType::next_step(state, ProcessEvent::Done)), Ok(())));
}

fn parsed_account_address(id: &str) -> Option<[u8; 20]> {
    let mut a = account(None);
    a.id = id.to_string();
    match ResolverMessageType::Account(a).first_step() {
        ProcessStep::Next { action: ProcessAction::LookupTns { address }, .. } => Some(address),
        ProcessStep::Finished(Err(ConsumerError::AlloyHex(_))) => None,
        _ => panic!("unexpected first step"),
    }
}

#[test]
fn account_ids_parse_as_forty_hex_digits() {
    let expected: alloy::primitives::Address = ACCOUNT_ID.parse().unwrap();
    let bytes = expected.into_array();
    assert_eq!(parsed_account_address(ACCOUNT_ID), Some(bytes));
    assert_eq!(parsed_account_address("0XF1016A7FE89EB9D244C3BFB270071B24619E36C6"), Some(bytes));
    assert_eq!(parsed_account_address("f1016a7fe89eb9d244c3bfb270071b24619e36c6"), Some(bytes));
    assert_eq!(parsed_account_address("0xf1016a7fe89eb9d244c3bfb270071b24619e36c"), None);
    assert_eq!(parsed_account_address("0x0xf1016a7fe89eb9d244c3bfb270071b24619e36c6"), None);
    assert_eq!(parsed_account_address("0xg1016a7fe89eb9d244c3bfb270071b24619e36c6"), None);
    assert_eq!(parsed_account_address(""), None);
}

#[test]
fn regular_atom_without_ipfs_parses_its_data() {
    let (state, action) = next(after_fetch(AtomKind::Other, None));
    assert!(matches!(action, ProcessAction::FetchAtomData { ref atom_id } if atom_id == "0xabc"));
    let (state, action) = next(ResolverMessageType::next_step(
        state,
        ProcessEvent::AtomLoaded(Some(atom(AtomKind::Other, Some("{\"name\":\"x\"}")))),
    ));
    assert!(matches!(action, ProcessAction::ResolveIpfs { ref data } if data == "{\"name\":\"x\"}"));
    let (_, action) = next(ResolverMessageType::next_step(state, ProcessEvent::IpfsReply(false)));
    assert!(matches!(action, ProcessAction::ParseJsonOrText { ref text, .. } if text == "{\"name\":\"x\"}"));
}

#[test]
fn atom_data_missing_is_an_error() {
    let (state, _) = next(after_fetch(AtomKind::Other, None));
    let r = result(ResolverMessageType::next_step(state, ProcessEvent::AtomLoaded(Some(atom(AtomKind::Other, None)))));
    assert!(matches!(r, Err(ConsumerError::AtomDataNotFound)));
    let (state, _) = next(after_fetch(AtomKind::Other, None));
    let r = result(ResolverMessageType::next_step(state, ProcessEvent::AtomLoaded(None)));
    assert!(matches!(r, Err(ConsumerError::AtomDataNotFound)));
}

fn at_bytes() -> ProcessState {
    let (state, _) = next(after_fetch(AtomKind::Other, None));
    let (state, _) = next(ResolverMessageType::next_step(
        state,
        ProcessEvent::AtomLoaded(Some(atom(AtomKind::Other, Some("ipfs://Qm")))),
    ));
    let (state, action) = next(ResolverMessageType::next_step(state, ProcessEvent::IpfsReply(true)));
    assert!(matches!(action, ProcessAction::ReadBytes));
    state
}

#[test]
fn ipfs_text_loses_its_byte_order_marks() {
    let bytes = "\u{feff}{\"a\":\u{feff}1}".as_bytes().to_vec();
    let (_, action) = next(ResolverMessageType::next_step(at_bytes(), ProcessEvent::Bytes(Some(bytes))));
    assert!(matches!(action, ProcessAction::ParseJsonOrText { ref text, .. } if text == "{\"a\":1}"));
}

#[test]
fn ipfs_binary_is_handled_as_binary() {
    let bytes = vec![0xff, 0xd8, 0xff, 0xe0];
    let (_, action) = next(ResolverMessageType::next_step(at_bytes(), ProcessEvent::Bytes(Some(bytes.clone()))));
    assert!(matches!(action, ProcessAction::HandleBinary { bytes: ref b, .. } if *b == bytes));
}

#[test]
fn unreadable_ipfs_bytes_are_an_error() {
    let r = result(ResolverMessageType::next_step(at_bytes(), ProcessEvent::Bytes(None)));
    assert!(matches!(r, Err(ConsumerError::FailedToGetBytes)));
}

fn at_metadata() -> ProcessState {
    let (_, action) = next(ResolverMessageType::next_step(at_bytes(), ProcessEvent::Bytes(Some(b"x".to_vec()))));
    assert!(matches!(action, ProcessAction::ParseJsonOrText { .. }));
    let (state, _) = next(ResolverMessageType::next_step(at_bytes(), ProcessEvent::Bytes(Some(b"x".to_vec()))));
    state
}

#[test]
fn known_metadata_is_written_then_image_queued_then_resolved() {
    let (state, action) = next(ResolverMessageType::next_step(at_metadata(), ProcessEvent::MetadataKind(AtomKind::Other)));
    assert!(matches!(action, ProcessAction::FindAndUpdateAtom { ref atom_id } if atom_id == "0xabc"));
    let (state, action) = next(ResolverMessageType::next_step(
        state,
        ProcessEvent::AtomUpdated(Some(updated(Some("ipfs://img")))),
    ));
    assert!(matches!(action, ProcessAction::QueueImage { ref url } if url == "ipfs://img"));
    let (state, action) = next(ResolverMessageType::next_step(state, ProcessEvent::Done));
    assert!(matches!(action, ProcessAction::MarkResolved { ref atom_id } if atom_id == "0xabc"));
    assert!(matches!(result(ResolverMessageType::next_step(state, ProcessEvent::Done)), Ok(())));
}

#[test]
fn known_metadata_without_image_goes_straight_to_resolved() {
    let (state, _) = next(ResolverMessageType::next_step(at_metadata(), ProcessEvent::MetadataKind(AtomKind::Account)));
    let (_, action) = next(ResolverMessageType::next_step(state, ProcessEvent::AtomUpdated(Some(updated(None)))));
    assert!(matches!(action, ProcessAction::MarkResolved { ref atom_id } if atom_id == "0xabc"));
    let (state, _) = next(ResolverMessageType::next_step(at_metadata(), ProcessEvent::MetadataKind(AtomKind::Account)));
    let r = result(ResolverMessageType::next_step(state, ProcessEvent::AtomUpdated(None)));
    assert!(matches!(r, Err(ConsumerError::AtomNotFound)));
}

#[test]
fn unknown_metadata_marks_the_atom_failed() {
    let (state, action) = next(ResolverMessageType::next_step(at_metadata(), ProcessEvent::MetadataKind(AtomKind::Unknown)));
    assert!(matches!(action, ProcessAction::FindAtomForFailure { ref atom_id } if atom_id == "0xabc"));
    let (state, action) = next(ResolverMessageType::next_step(
        state,
        ProcessEvent::AtomLoaded(Some(atom(AtomKind::Unknown, None))),
    ));
    assert!(matches!(action, ProcessAction::MarkFailed { ref atom_id } if atom_id == "0xabc"));
    assert!(matches!(result(ResolverMessageType::next_step(state, ProcessEvent::Done)), Ok(())));
}

#[test]
fn account_with_bad_address_is_a_hex_error() {
    let mut bad = account(None);
    bad.id = "not an address".to_string();
    let r = result(ResolverMessageType::Account(bad).first_step());
    assert!(matches!(r, Err(ConsumerError::AlloyHex(_))));
}

#[test]
fn account_with_bad_address_reports_that_parse_error() {
    let cases = [
        ("0xf1016a7fe89eb9d244c3bfb270071b24619e36c", HexError::OddLength),
        ("0xf1016a7fe89eb9d244c3bfb270071b24619e36", HexError::InvalidStringLength),
        ("0x0xf1016a7fe89eb9d244c3bfb270071b24619e36", HexError::InvalidHexCharacter { c: 'x', index: 1 }),
        ("0x0xf1016a7fe89eb9d244c3bfb270071b24619e36c6", HexError::InvalidStringLength),
        ("0xf1016a7fe89eb9d244c3bfb270071b24619e3zc6", HexError::InvalidHexCharacter { c: 'z', index: 37 }),
        ("", HexError::InvalidStringLength),
    ];
    for (id, expected) in cases {
        let mut bad = account(None);
        bad.id = id.to_string();
        match result(ResolverMessageType::Account(bad).first_step()) {
            Err(ConsumerError::AlloyHex(e)) => assert_eq!(e, expected, "id {:?}", id),
            other => panic!("unexpected result {:?}", other),
        }
    }
}

#[test]
fn account_tns_name_skips_ens_and_updates_account_and_atom() {
    let message = ResolverConsumerMessage::new_account(account(Some("0xatom")));
    let (state, action) = next(message.message.first_step());
    match action {
        ProcessAction::LookupTns { address } => {
            let expected: alloy::primitives::Address = ACCOUNT_ID.parse().unwrap();
            assert_eq!(address, expected.into_array());
        }
        _ => panic!("expected the TNS lookup"),
    }
    let (state, action) = next(ResolverMessageType::next_step(
        state,
        ProcessEvent::Resolved(ens(Some("alice"), Some("ipfs://a"))),
    ));
    assert!(matches!(action, ProcessAction::FetchAccount { ref account_id } if account_id == ACCOUNT_ID));
    let (state, action) = next(ResolverMessageType::next_step(
        state,
        ProcessEvent::AccountLoaded(Some(account(Some("0xatom")))),
    ));
    match action {
        ProcessAction::WriteAccount { account: written } => {
            assert_eq!(written.id, ACCOUNT_ID);
            assert_eq!(written.atom_id.as_deref(), Some("0xatom"));
            assert_eq!(written.label, "alice");
            assert_eq!(written.image.as_deref(), Some("ipfs://a"));
        }
        _ => panic!("expected the account write"),
    }
    let (state, action) = next(ResolverMessageType::next_step(state, ProcessEvent::Done));
    assert!(matches!(action, ProcessAction::FetchAtom { ref atom_id } if atom_id == "0xatom"));
    let (state, action) = next(ResolverMessageType::next_step(
        state,
        ProcessEvent::AtomLoaded(Some(atom(AtomKind::Account, Some(ACCOUNT_ID)))),
    ));
    match action {
        ProcessAction::WriteAtom { atom: written } => {
            assert_eq!(written.id, "0xabc");
            assert_eq!(written.data.as_deref(), Some(ACCOUNT_ID));
            assert_eq!(written.label.as_deref(), Some("alice"));
            assert_eq!(written.image.as_deref(), Some("ipfs://a"));
        }
        _ => panic!("expected the atom write"),
    }
    assert!(matches!(result(ResolverMessageType::next_step(state, ProcessEvent::Done)), Ok(())));
}

#[test]
fn account_without_tns_name_falls_back_to_ens() {
    let (state, _) = next(ResolverMessageType::Account(account(None)).first_step());
    let (state, action) = next(ResolverMessageType::next_step(state, ProcessEvent::Resolved(ens(None, None))));
    assert!(matches!(action, ProcessAction::LookupEns { .. }));
    let (state, _) = next(ResolverMessageType::next_step(state, ProcessEvent::Resolved(ens(Some("bob.eth"), None))));
    let (state, action) = next(ResolverMessageType::next_step(state, ProcessEvent::AccountLoaded(Some(account(None)))));
    assert!(matches!(action, ProcessAction::WriteAccount { ref account } if account.label == "bob.eth" && account.image.is_none()));
    assert!(matches!(result(ResolverMessageType::next_step(state, ProcessEvent::Done)), Ok(())));
}

#[test]
fn account_without_any_name_writes_nothing() {
    let (state, _) = next(ResolverMessageType::Account(account(Some("0xatom"))).first_step());
    let (state, _) = next(ResolverMessageType::next_step(state, ProcessEvent::Resolved(ens(None, None))));
    let r = result(ResolverMessageType::next_step(state, ProcessEvent::Resolved(ens(None, None))));
    assert!(matches!(r, Ok(())));
}

#[test]
fn missing_stored_account_or_atom_is_an_error() {
    let (state, _) = next(ResolverMessageType::Account(account(Some("0xatom"))).first_step());
    let (state, _) = next(ResolverMessageType::next_step(state, ProcessEvent::Resolved(ens(Some("a"), None))));
    let r = result(ResolverMessageType::next_step(state, ProcessEvent::AccountLoaded(None)));
    assert!(matches!(r, Err(ConsumerError::AccountNotFound)));

    let (state, _) = next(ResolverMessageType::Account(account(Some("0xatom"))).first_step());
    let (state, _) = next(ResolverMessageType::next_step(state, ProcessEvent::Resolved(ens(Some("a"), None))));
    let (state, _) = next(ResolverMessageType::next_step(state, ProcessEvent::AccountLoaded(Some(account(None)))));
    let (state, _) = next(ResolverMessageType::next_step(state, ProcessEvent::Done));
    let r = result(ResolverMessageType::next_step(state, ProcessEvent::AtomLoaded(None)));
    assert!(matches!(r, Err(ConsumerError::AtomNotFound)));
}
