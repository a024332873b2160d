//! The messages of the resolver consumer and the decisions taken while one is
//! processed. Each step takes the outcome of the last database, network or
//! queue operation and says which operation comes next, or how processing
//! ended.
use vstd::prelude::*;
use vstd::string::StringSliceAdditionalSpecFns;

use crate::address::{address_parse, parse_address};
use crate::error::ConsumerError;
use crate::records::{opt_chars, Ens, EnsView};
use crate::text::{decode_utf8_string, lemma_remove_char_absent, remove_char, without_char};
use vstd::utf8::{decode_utf8, encode_utf8, valid_utf8};

verus! {

/// The byte order mark, which decoded IPFS text loses before it is parsed.
pub const BYTE_ORDER_MARK: char = '\u{feff}';

/// An account, as far as resolution reads and writes it.
#[derive(Clone, Debug)]
pub struct Account {
    pub id: String,
    pub atom_id: Option<String>,
    pub label: String,
    pub image: Option<String>,
}

pub struct AccountView {
    pub id: Seq<char>,
    pub atom_id: Option<Seq<char>>,
    pub label: Seq<char>,
    pub image: Option<Seq<char>>,
}

impl View for Account {
    type V = AccountView;

    open spec fn view(&self) -> AccountView {
        AccountView {
            id: self.id@,
            atom_id: opt_chars(self.atom_id),
            label: self.label@,
            image: opt_chars(self.image),
        }
    }
}

/// The kinds of atom that resolution tells apart.
#[derive(PartialEq, Eq, Structural, Clone, Copy, Debug)]
pub enum AtomKind {
    Account,
    Caip22,
    Unknown,
    Other,
}

/// An atom, as far as resolution reads and writes it.
#[derive(Clone, Debug)]
pub struct Atom {
    pub id: String,
    pub atom_type: AtomKind,
    pub data: Option<String>,
    pub label: Option<String>,
    pub image: Option<String>,
}

pub struct AtomView {
    pub id: Seq<char>,
    pub atom_type: AtomKind,
    pub data: Option<Seq<char>>,
    pub label: Option<Seq<char>>,
    pub image: Option<Seq<char>>,
}

impl View for Atom {
    type V = AtomView;

    open spec fn view(&self) -> AtomView {
        AtomView {
            id: self.id@,
            atom_type: self.atom_type,
            data: opt_chars(self.data),
            label: opt_chars(self.label),
            image: opt_chars(self.image),
        }
    }
}

/// A message sent to the resolver consumer.
pub struct ResolverConsumerMessage {
    pub message: ResolverMessageType,
}

/// An atom message sent to the resolver consumer.
pub struct ResolveAtom {
    pub atom: Atom,
}

/// What a resolver message asks to resolve.
pub enum ResolverMessageType {
    Atom(String),
    Account(Account),
}

pub enum MessageView {
    Atom(Seq<char>),
    Account(AccountView),
}

impl View for ResolverMessageType {
    type V = MessageView;

    open spec fn view(&self) -> MessageView {
        match self {
            ResolverMessageType::Atom(id) => MessageView::Atom(id@),
            ResolverMessageType::Account(a) => MessageView::Account(a@),
        }
    }
}

impl ResolverConsumerMessage {
    /// A message that asks to resolve the atom with this id.
    pub fn new_atom(atom_id: String) -> (m: Self)
        ensures
            m.message@ == MessageView::Atom(atom_id@),
    {
        ResolverConsumerMessage { message: ResolverMessageType::Atom(atom_id) }
    }

    /// A message that asks to resolve the names of this account.
    pub fn new_account(account: Account) -> (m: Self)
        ensures
            m.message@ == MessageView::Account(account@),
    {
        ResolverConsumerMessage { message: ResolverMessageType::Account(account) }
    }
}

/// Where the processing of a message stands, waiting for the outcome of its
/// last operation.
pub enum ProcessState {
    /// Waiting for the atom named by the message.
    AwaitAtom { atom_id: String },
    /// Waiting for the account that an account atom names.
    AwaitAccountByData,
    /// Waiting for the CAIP-22 metadata of `atom` to be resolved.
    AwaitCaip22Metadata { atom: Atom },
    /// Waiting for the CAIP-22 metadata to be written to the atom `atom_id`.
    AwaitCaip22Written { atom_id: String },
    /// Waiting for the atom whose data is to be resolved.
    AwaitAtomData { atom_id: String },
    /// Waiting to learn whether `data`, the data of `atom`, is an IPFS URI
    /// with a response.
    AwaitIpfs { atom_id: String, atom: Atom, data: String },
    /// Waiting for the bytes of the IPFS response for `atom`'s data.
    AwaitBytes { atom_id: String, atom: Atom },
    /// Waiting for the atom type of the parsed metadata.
    AwaitMetadata { atom_id: String },
    /// Waiting for the atom to be found and its metadata written.
    AwaitAtomUpdate,
    /// Waiting for the image of the atom `atom_id` to be queued for upload.
    AwaitImageQueued { atom_id: String },
    /// Waiting for the atom to be marked resolved.
    AwaitMarkedResolved,
    /// Waiting for the atom that is to be marked failed.
    AwaitAtomForFailure,
    /// Waiting for the atom to be marked failed.
    AwaitMarkedFailed,
    /// Waiting for the TNS lookup of the account's address.
    AwaitTns { account: Account, address: [u8; 20] },
    /// Waiting for the ENS lookup of the account's address.
    AwaitEns { account: Account },
    /// Waiting for the stored account whose label is to be written.
    AwaitAccountRecord { account: Account, ens: Ens },
    /// Waiting for the account's label and image to be written.
    AwaitAccountWritten { account: Account, ens: Ens },
    /// Waiting for the stored atom of the account.
    AwaitAtomRecord { ens: Ens },
    /// Waiting for the atom's label and image to be written.
    AwaitAtomWritten,
}

/// The operation that processing asks for next.
pub enum ProcessAction {
    /// Find the atom with this id.
    FetchAtom { atom_id: String },
    /// Find the account with this id.
    FetchAccount { account_id: String },
    /// Resolve the CAIP-22 metadata of `atom` (its token URI, fetched and
    /// parsed).
    ResolveCaip22 { atom: Atom },
    /// Write the resolved CAIP-22 metadata (label, image, atom type) to `atom`.
    WriteCaip22Metadata { atom: Atom },
    /// Find the atom with this id, to read its data.
    FetchAtomData { atom_id: String },
    /// Try to resolve `data` as an IPFS URI.
    ResolveIpfs { data: String },
    /// Read the bytes of the IPFS response.
    ReadBytes,
    /// Parse `text` as JSON, or else as text, into metadata for `atom`.
    ParseJsonOrText { text: String, atom: Atom },
    /// Turn `bytes` into metadata for `atom` as binary data.
    HandleBinary { bytes: Vec<u8>, atom: Atom },
    /// Find the atom with this id and write the parsed metadata to it.
    FindAndUpdateAtom { atom_id: String },
    /// Queue `url` for IPFS upload.
    QueueImage { url: String },
    /// Mark the atom with this id resolved.
    MarkResolved { atom_id: String },
    /// Find the atom with this id, to mark it failed.
    FindAtomForFailure { atom_id: String },
    /// Mark the atom with this id failed.
    MarkFailed { atom_id: String },
    /// Run the TNS lookup of `address`.
    LookupTns { address: [u8; 20] },
    /// Run the ENS lookup of `address`.
    LookupEns { address: [u8; 20] },
    /// Store `account`.
    WriteAccount { account: Account },
    /// Store `atom`.
    WriteAtom { atom: Atom },
}

/// The outcome of an operation.
pub enum ProcessEvent {
    /// The atom that a fetch found, if any.
    AtomLoaded(Option<Atom>),
    /// The account that a fetch found, if any.
    AccountLoaded(Option<Account>),
    /// The operation is done.
    Done,
    /// Whether the data resolved to an IPFS response.
    IpfsReply(bool),
    /// The bytes of the IPFS response; `None` when they could not be read.
    Bytes(Option<Vec<u8>>),
    /// The atom type of the parsed metadata.
    MetadataKind(AtomKind),
    /// The atom with the metadata written to it; `None` when it was not found.
    AtomUpdated(Option<Atom>),
    /// What a name lookup found.
    Resolved(Ens),
}

/// What a step leads to.
pub enum ProcessStep {
    /// Perform `action`, then step from `state` with its outcome.
    Next { state: ProcessState, action: ProcessAction },
    /// Processing is over.
    Finished(Result<(), ConsumerError>),
}

pub enum ProcessStateView {
    AwaitAtom { atom_id: Seq<char> },
    AwaitAccountByData,
    AwaitCaip22Metadata { atom: AtomView },
    AwaitCaip22Written { atom_id: Seq<char> },
    AwaitAtomData { atom_id: Seq<char> },
    AwaitIpfs { atom_id: Seq<char>, atom: AtomView, data: Seq<char> },
    AwaitBytes { atom_id: Seq<char>, atom: AtomView },
    AwaitMetadata { atom_id: Seq<char> },
    AwaitAtomUpdate,
    AwaitImageQueued { atom_id: Seq<char> },
    AwaitMarkedResolved,
    AwaitAtomForFailure,
    AwaitMarkedFailed,
    AwaitTns { account: AccountView, address: Seq<u8> },
    AwaitEns { account: AccountView },
    AwaitAccountRecord { account: AccountView, ens: EnsView },
    AwaitAccountWritten { account: AccountView, ens: EnsView },
    AwaitAtomRecord { ens: EnsView },
    AwaitAtomWritten,
}

pub enum ProcessActionView {
    FetchAtom { atom_id: Seq<char> },
    FetchAccount { account_id: Seq<char> },
    ResolveCaip22 { atom: AtomView },
    WriteCaip22Metadata { atom: AtomView },
    FetchAtomData { atom_id: Seq<char> },
    ResolveIpfs { data: Seq<char> },
    ReadBytes,
    ParseJsonOrText { text: Seq<char>, atom: AtomView },
    HandleBinary { bytes: Seq<u8>, atom: AtomView },
    FindAndUpdateAtom { atom_id: Seq<char> },
    QueueImage { url: Seq<char> },
    MarkResolved { atom_id: Seq<char> },
    FindAtomForFailure { atom_id: Seq<char> },
    MarkFailed { atom_id: Seq<char> },
    LookupTns { address: Seq<u8> },
    LookupEns { address: Seq<u8> },
    WriteAccount { account: AccountView },
    WriteAtom { atom: AtomView },
}

pub enum ProcessEventView {
    AtomLoaded(Option<AtomView>),
    AccountLoaded(Option<AccountView>),
    Done,
    IpfsReply(bool),
    Bytes(Option<Seq<u8>>),
    MetadataKind(AtomKind),
    AtomUpdated(Option<AtomView>),
    Resolved(EnsView),
}

pub enum ProcessStepView {
    Next { state: ProcessStateView, action: ProcessActionView },
    Finished(Result<(), ConsumerError>),
}

/// An optional atom by its view.
pub open spec fn opt_atom(a: Option<Atom>) -> Option<AtomView> {
    match a {
        Some(x) => Some(x@),
        None => None,
    }
}

impl View for ProcessState {
    type V = ProcessStateView;

    open spec fn view(&self) -> ProcessStateView {
        match self {
            ProcessState::AwaitAtom { atom_id } => ProcessStateView::AwaitAtom { atom_id: atom_id@ },
            ProcessState::AwaitAccountByData => ProcessStateView::AwaitAccountByData,
            ProcessState::AwaitCaip22Metadata { atom } => ProcessStateView::AwaitCaip22Metadata {
                atom: atom@,
            },
            ProcessState::AwaitCaip22Written { atom_id } => ProcessStateView::AwaitCaip22Written {
                atom_id: atom_id@,
            },
            ProcessState::AwaitAtomData { atom_id } => ProcessStateView::AwaitAtomData {
                atom_id: atom_id@,
            },
            ProcessState::AwaitIpfs { atom_id, atom, data } => ProcessStateView::AwaitIpfs {
                atom_id: atom_id@,
                atom: atom@,
                data: data@,
            },
            ProcessState::AwaitBytes { atom_id, atom } => ProcessStateView::AwaitBytes {
                atom_id: atom_id@,
                atom: atom@,
            },
            ProcessState::AwaitMetadata { atom_id } => ProcessStateView::AwaitMetadata {
                atom_id: atom_id@,
            },
            ProcessState::AwaitAtomUpdate => ProcessStateView::AwaitAtomUpdate,
            ProcessState::AwaitImageQueued { atom_id } => ProcessStateView::AwaitImageQueued {
                atom_id: atom_id@,
            },
            ProcessState::AwaitMarkedResolved => ProcessStateView::AwaitMarkedResolved,
            ProcessState::AwaitAtomForFailure => ProcessStateView::AwaitAtomForFailure,
            ProcessState::AwaitMarkedFailed => ProcessStateView::AwaitMarkedFailed,
            ProcessState::AwaitTns { account, address } => ProcessStateView::AwaitTns {
                account: account@,
                address: address@,
            },
            ProcessState::AwaitEns { account } => ProcessStateView::AwaitEns { account: account@ },
            ProcessState::AwaitAccountRecord { account, ens } => ProcessStateView::AwaitAccountRecord {
                account: account@,
                ens: ens@,
            },
            ProcessState::AwaitAccountWritten { account, ens } => ProcessStateView::AwaitAccountWritten {
                account: account@,
                ens: ens@,
            },
            ProcessState::AwaitAtomRecord { ens } => ProcessStateView::AwaitAtomRecord { ens: ens@ },
            ProcessState::AwaitAtomWritten => ProcessStateView::AwaitAtomWritten,
        }
    }
}

impl View for ProcessAction {
    type V = ProcessActionView;

    open spec fn view(&self) -> ProcessActionView {
        match self {
            ProcessAction::FetchAtom { atom_id } => ProcessActionView::FetchAtom { atom_id: atom_id@ },
            ProcessAction::FetchAccount { account_id } => ProcessActionView::FetchAccount {
                account_id: account_id@,
            },
            ProcessAction::ResolveCaip22 { atom } => ProcessActionView::ResolveCaip22 { atom: atom@ },
            ProcessAction::WriteCaip22Metadata { atom } => ProcessActionView::WriteCaip22Metadata {
                atom: atom@,
            },
            ProcessAction::FetchAtomData { atom_id } => ProcessActionView::FetchAtomData {
                atom_id: atom_id@,
            },
            ProcessAction::ResolveIpfs { data } => ProcessActionView::ResolveIpfs { data: data@ },
            ProcessAction::ReadBytes => ProcessActionView::ReadBytes,
            ProcessAction::ParseJsonOrText { text, atom } => ProcessActionView::ParseJsonOrText {
                text: text@,
                atom: atom@,
            },
            ProcessAction::HandleBinary { bytes, atom } => ProcessActionView::HandleBinary {
                bytes: bytes@,
                atom: atom@,
            },
            ProcessAction::FindAndUpdateAtom { atom_id } => ProcessActionView::FindAndUpdateAtom {
                atom_id: atom_id@,
            },
            ProcessAction::QueueImage { url } => ProcessActionView::QueueImage { url: url@ },
            ProcessAction::MarkResolved { atom_id } => ProcessActionView::MarkResolved {
                atom_id: atom_id@,
            },
            ProcessAction::FindAtomForFailure { atom_id } => ProcessActionView::FindAtomForFailure {
                atom_id: atom_id@,
            },
            ProcessAction::MarkFailed { atom_id } => ProcessActionView::MarkFailed {
                atom_id: atom_id@,
            },
            ProcessAction::LookupTns { address } => ProcessActionView::LookupTns {
                address: address@,
            },
            ProcessAction::LookupEns { address } => ProcessActionView::LookupEns {
                address: address@,
            },
            ProcessAction::WriteAccount { account } => ProcessActionView::WriteAccount {
                account: account@,
            },
            ProcessAction::WriteAtom { atom } => ProcessActionView::WriteAtom { atom: atom@ },
        }
    }
}

impl View for ProcessEvent {
    type V = ProcessEventView;

    open spec fn view(&self) -> ProcessEventView {
        match self {
            ProcessEvent::AtomLoaded(a) => ProcessEventView::AtomLoaded(opt_atom(*a)),
            ProcessEvent::AccountLoaded(a) => ProcessEventView::AccountLoaded(
                match a {
                    Some(x) => Some(x@),
                    None => None,
                },
            ),
            ProcessEvent::Done => ProcessEventView::Done,
            ProcessEvent::IpfsReply(b) => ProcessEventView::IpfsReply(*b),
            ProcessEvent::Bytes(b) => ProcessEventView::Bytes(
                match b {
                    Some(x) => Some(x@),
                    None => None,
                },
            ),
            ProcessEvent::MetadataKind(k) => ProcessEventView::MetadataKind(*k),
            ProcessEvent::AtomUpdated(u) => ProcessEventView::AtomUpdated(opt_atom(*u)),
            ProcessEvent::Resolved(e) => ProcessEventView::Resolved(e@),
        }
    }
}

impl View for ProcessStep {
    type V = ProcessStepView;

    open spec fn view(&self) -> ProcessStepView {
        match self {
            ProcessStep::Next { state, action } => ProcessStepView::Next {
                state: state@,
                action: action@,
            },
            ProcessStep::Finished(r) => ProcessStepView::Finished(*r),
        }
    }
}

/// `step` ends processing with `Ok(())`.
pub open spec fn finished_ok(step: ProcessStepView) -> bool {
    step == ProcessStepView::Finished(Ok(()))
}

/// `step` ends processing with the error `e`.
pub open spec fn finished_with(step: ProcessStepView, e: ConsumerError) -> bool {
    step == ProcessStepView::Finished(Err(e))
}

/// `account` with the resolved `label` and `image`.
pub open spec fn relabel_account(
    account: AccountView,
    label: Seq<char>,
    image: Option<Seq<char>>,
) -> AccountView {
    AccountView { label, image, ..account }
}

/// `atom` with the resolved `label` and `image`.
pub open spec fn relabel_atom(
    atom: AtomView,
    label: Option<Seq<char>>,
    image: Option<Seq<char>>,
) -> AtomView {
    AtomView { label, image, ..atom }
}

/// How processing of an account starts: its id must parse as an address,
/// whose TNS lookup comes first; a parse failure ends processing with that
/// parse's error.
pub open spec fn account_start(account: AccountView, step: ProcessStepView) -> bool {
    match address_parse(encode_utf8(account.id)) {
        Ok(address) => step == ProcessStepView::Next {
            state: ProcessStateView::AwaitTns { account, address },
            action: ProcessActionView::LookupTns { address },
        },
        Err(e) => finished_with(step, ConsumerError::AlloyHex(e)),
    }
}

/// What happens once a name lookup of `account` settled on `ens`: with a
/// name, the stored account is fetched to be relabelled; without, processing
/// ends with nothing written.
pub open spec fn after_resolution(account: AccountView, ens: EnsView) -> ProcessStepView {
    if ens.name is Some {
        ProcessStepView::Next {
            state: ProcessStateView::AwaitAccountRecord { account, ens },
            action: ProcessActionView::FetchAccount { account_id: account.id },
        }
    } else {
        ProcessStepView::Finished(Ok(()))
    }
}

/// The first step for a message.
pub open spec fn process_first(message: MessageView, step: ProcessStepView) -> bool {
    match message {
        MessageView::Atom(atom_id) => step == ProcessStepView::Next {
            state: ProcessStateView::AwaitAtom { atom_id },
            action: ProcessActionView::FetchAtom { atom_id },
        },
        MessageView::Account(account) => account_start(account, step),
    }
}

/// Whether `event` is an outcome of the operation that `state` waits for.
pub open spec fn process_expects(state: ProcessStateView, event: ProcessEventView) -> bool {
    match state {
        ProcessStateView::AwaitAtom { .. } => event is AtomLoaded,
        ProcessStateView::AwaitAccountByData => event is AccountLoaded,
        ProcessStateView::AwaitCaip22Metadata { .. } => event is Done,
        ProcessStateView::AwaitCaip22Written { .. } => event is Done,
        ProcessStateView::AwaitAtomData { .. } => event is AtomLoaded,
        ProcessStateView::AwaitIpfs { .. } => event is IpfsReply,
        ProcessStateView::AwaitBytes { .. } => event is Bytes,
        ProcessStateView::AwaitMetadata { .. } => event is MetadataKind,
        ProcessStateView::AwaitAtomUpdate => event is AtomUpdated,
        ProcessStateView::AwaitImageQueued { .. } => event is Done,
        ProcessStateView::AwaitMarkedResolved => event is Done,
        ProcessStateView::AwaitAtomForFailure => event is AtomLoaded,
        ProcessStateView::AwaitMarkedFailed => event is Done,
        ProcessStateView::AwaitTns { .. } => event is Resolved,
        ProcessStateView::AwaitEns { .. } => event is Resolved,
        ProcessStateView::AwaitAccountRecord { .. } => event is AccountLoaded,
        ProcessStateView::AwaitAccountWritten { .. } => event is Done,
        ProcessStateView::AwaitAtomRecord { .. } => event is AtomLoaded,
        ProcessStateView::AwaitAtomWritten => event is Done,
    }
}

/// Whether `event` is of the kind that the operation `action` gives.
pub open spec fn process_answers(action: ProcessActionView, event: ProcessEventView) -> bool {
    match action {
        ProcessActionView::FetchAtom { .. } => event is AtomLoaded,
        ProcessActionView::FetchAtomData { .. } => event is AtomLoaded,
        ProcessActionView::FindAtomForFailure { .. } => event is AtomLoaded,
        ProcessActionView::FetchAccount { .. } => event is AccountLoaded,
        ProcessActionView::ResolveIpfs { .. } => event is IpfsReply,
        ProcessActionView::ReadBytes => event is Bytes,
        ProcessActionView::ParseJsonOrText { .. } => event is MetadataKind,
        ProcessActionView::HandleBinary { .. } => event is MetadataKind,
        ProcessActionView::FindAndUpdateAtom { .. } => event is AtomUpdated,
        ProcessActionView::LookupTns { .. } => event is Resolved,
        ProcessActionView::LookupEns { .. } => event is Resolved,
        _ => event is Done,
    }
}

/// A step that goes on waits for exactly the kind of outcome that its
/// operation gives.
pub open spec fn process_step_answerable(step: ProcessStepView) -> bool {
    match step {
        ProcessStepView::Next { state, action } => forall|event: ProcessEventView|
            #[trigger] process_answers(action, event) ==> process_expects(state, event),
        ProcessStepView::Finished(_) => true,
    }
}

/// The text that an IPFS response's bytes are parsed from: the decoded text
/// without any byte order mark.
pub open spec fn ipfs_text(bytes: Seq<u8>) -> Seq<char> {
    remove_char(decode_utf8(bytes), BYTE_ORDER_MARK)
}

/// The step from `state` once `event` is the outcome of its operation.
pub open spec fn process_next(
    state: ProcessStateView,
    event: ProcessEventView,
    step: ProcessStepView,
) -> bool {
    match (state, event) {
        (ProcessStateView::AwaitAtom { atom_id }, ProcessEventView::AtomLoaded(found)) => match found {
            None => finished_with(step, ConsumerError::AtomNotFound),
            Some(atom) => match atom.atom_type {
                AtomKind::Account => match atom.data {
                    None => finished_with(step, ConsumerError::AtomDataNotFound),
                    Some(data) => step == ProcessStepView::Next {
                        state: ProcessStateView::AwaitAccountByData,
                        action: ProcessActionView::FetchAccount { account_id: data },
                    },
                },
                AtomKind::Caip22 => step == ProcessStepView::Next {
                    state: ProcessStateView::AwaitCaip22Metadata { atom },
                    action: ProcessActionView::ResolveCaip22 { atom },
                },
                _ => step == ProcessStepView::Next {
                    state: ProcessStateView::AwaitAtomData { atom_id },
                    action: ProcessActionView::FetchAtomData { atom_id },
                },
            },
        },
        (ProcessStateView::AwaitAccountByData, ProcessEventView::AccountLoaded(found)) => match found {
            None => finished_with(step, ConsumerError::AccountNotFound),
            Some(account) => account_start(account, step),
        },
        (ProcessStateView::AwaitCaip22Metadata { atom }, ProcessEventView::Done) => step
            == ProcessStepView::Next {
            state: ProcessStateView::AwaitCaip22Written { atom_id: atom.id },
            action: ProcessActionView::WriteCaip22Metadata { atom },
        },
        (ProcessStateView::AwaitCaip22Written { atom_id }, ProcessEventView::Done) => step
            == ProcessStepView::Next {
            state: ProcessStateView::AwaitMarkedResolved,
            action: ProcessActionView::MarkResolved { atom_id },
        },
        (ProcessStateView::AwaitAtomData { atom_id }, ProcessEventView::AtomLoaded(found)) => match found {
            Some(atom) => match atom.data {
                Some(data) => step == ProcessStepView::Next {
                    state: ProcessStateView::AwaitIpfs { atom_id, atom, data },
                    action: ProcessActionView::ResolveIpfs { data },
                },
                None => finished_with(step, ConsumerError::AtomDataNotFound),
            },
            None => finished_with(step, ConsumerError::AtomDataNotFound),
        },
        (ProcessStateView::AwaitIpfs { atom_id, atom, data }, ProcessEventView::IpfsReply(has_response)) => {
            if has_response {
                step == ProcessStepView::Next {
                    state: ProcessStateView::AwaitBytes { atom_id, atom },
                    action: ProcessActionView::ReadBytes,
                }
            } else {
                step == ProcessStepView::Next {
                    state: ProcessStateView::AwaitMetadata { atom_id },
                    action: ProcessActionView::ParseJsonOrText { text: data, atom },
                }
            }
        },
        (ProcessStateView::AwaitBytes { atom_id, atom }, ProcessEventView::Bytes(read)) => match read {
            None => finished_with(step, ConsumerError::FailedToGetBytes),
            Some(bytes) => if valid_utf8(bytes) {
                step == ProcessStepView::Next {
                    state: ProcessStateView::AwaitMetadata { atom_id },
                    action: ProcessActionView::ParseJsonOrText { text: ipfs_text(bytes), atom },
                }
            } else {
                step == ProcessStepView::Next {
                    state: ProcessStateView::AwaitMetadata { atom_id },
                    action: ProcessActionView::HandleBinary { bytes, atom },
                }
            },
        },
        (ProcessStateView::AwaitMetadata { atom_id }, ProcessEventView::MetadataKind(kind)) => {
            if kind != AtomKind::Unknown {
                step == ProcessStepView::Next {
                    state: ProcessStateView::AwaitAtomUpdate,
                    action: ProcessActionView::FindAndUpdateAtom { atom_id },
                }
            } else {
                step == ProcessStepView::Next {
                    state: ProcessStateView::AwaitAtomForFailure,
                    action: ProcessActionView::FindAtomForFailure { atom_id },
                }
            }
        },
        (ProcessStateView::AwaitAtomUpdate, ProcessEventView::AtomUpdated(updated)) => match updated {
            None => finished_with(step, ConsumerError::AtomNotFound),
            Some(atom) => match atom.image {
                Some(url) => step == ProcessStepView::Next {
                    state: ProcessStateView::AwaitImageQueued { atom_id: atom.id },
                    action: ProcessActionView::QueueImage { url },
                },
                None => step == ProcessStepView::Next {
                    state: ProcessStateView::AwaitMarkedResolved,
                    action: ProcessActionView::MarkResolved { atom_id: atom.id },
                },
            },
        },
        (ProcessStateView::AwaitImageQueued { atom_id }, ProcessEventView::Done) => step
            == ProcessStepView::Next {
            state: ProcessStateView::AwaitMarkedResolved,
            action: ProcessActionView::MarkResolved { atom_id },
        },
        (ProcessStateView::AwaitMarkedResolved, ProcessEventView::Done) => finished_ok(step),
        (ProcessStateView::AwaitAtomForFailure, ProcessEventView::AtomLoaded(found)) => match found {
            None => finished_with(step, ConsumerError::AtomNotFound),
            Some(atom) => step == ProcessStepView::Next {
                state: ProcessStateView::AwaitMarkedFailed,
                action: ProcessActionView::MarkFailed { atom_id: atom.id },
            },
        },
        (ProcessStateView::AwaitMarkedFailed, ProcessEventView::Done) => finished_ok(step),
        (ProcessStateView::AwaitTns { account, address }, ProcessEventView::Resolved(ens)) => {
            if ens.name is Some {
                step == after_resolution(account, ens)
            } else {
                step == ProcessStepView::Next {
                    state: ProcessStateView::AwaitEns { account },
                    action: ProcessActionView::LookupEns { address },
                }
            }
        },
        (ProcessStateView::AwaitEns { account }, ProcessEventView::Resolved(ens)) => step
            == after_resolution(account, ens),
        (
            ProcessStateView::AwaitAccountRecord { account, ens },
            ProcessEventView::AccountLoaded(found),
        ) => match found {
            None => finished_with(step, ConsumerError::AccountNotFound),
            Some(stored) => match ens.name {
                None => finished_with(step, ConsumerError::LabelNotFound),
                Some(label) => step == ProcessStepView::Next {
                    state: ProcessStateView::AwaitAccountWritten { account, ens },
                    action: ProcessActionView::WriteAccount {
                        account: relabel_account(stored, label, ens.image),
                    },
                },
            },
        },
        (ProcessStateView::AwaitAccountWritten { account, ens }, ProcessEventView::Done) => match account.atom_id {
            Some(atom_id) => step == ProcessStepView::Next {
                state: ProcessStateView::AwaitAtomRecord { ens },
                action: ProcessActionView::FetchAtom { atom_id },
            },
            None => finished_ok(step),
        },
        (ProcessStateView::AwaitAtomRecord { ens }, ProcessEventView::AtomLoaded(found)) => match found {
            None => finished_with(step, ConsumerError::AtomNotFound),
            Some(stored) => step == ProcessStepView::Next {
                state: ProcessStateView::AwaitAtomWritten,
                action: ProcessActionView::WriteAtom {
                    atom: relabel_atom(stored, ens.name, ens.image),
                },
            },
        },
        (ProcessStateView::AwaitAtomWritten, ProcessEventView::Done) => finished_ok(step),
        _ => false,
    }
}

/// The operation that `step` asks for, if it goes on.
pub open spec fn next_action(step: ProcessStepView) -> Option<ProcessActionView> {
    match step {
        ProcessStepView::Next { action, .. } => Some(action),
        ProcessStepView::Finished(_) => None,
    }
}

/// The operations that write to the database.
pub open spec fn writes(action: ProcessActionView) -> bool {
    match action {
        ProcessActionView::WriteCaip22Metadata { .. } => true,
        ProcessActionView::FindAndUpdateAtom { .. } => true,
        ProcessActionView::MarkResolved { .. } => true,
        ProcessActionView::MarkFailed { .. } => true,
        ProcessActionView::WriteAccount { .. } => true,
        ProcessActionView::WriteAtom { .. } => true,
        _ => false,
    }
}

/// The states in which an atom's data is being resolved (IPFS and parsing),
/// before its metadata is known.
pub open spec fn resolving_data(state: ProcessStateView) -> bool {
    ||| state is AwaitAtomData
    ||| state is AwaitIpfs
    ||| state is AwaitBytes
}

/// What every processing state keeps: a state that is about to write a
/// resolved name holds one.
pub open spec fn process_inv(state: ProcessStateView) -> bool {
    match state {
        ProcessStateView::AwaitAccountRecord { ens, .. } => ens.name is Some,
        ProcessStateView::AwaitAccountWritten { ens, .. } => ens.name is Some,
        ProcessStateView::AwaitAtomRecord { ens } => ens.name is Some,
        _ => true,
    }
}

/// The first step of any message leads to a state that keeps the invariant.
pub proof fn lemma_process_first_inv(message: MessageView, step: ProcessStepView)
    requires
        process_first(message, step),
    ensures
        step matches ProcessStepView::Next { state, .. } ==> process_inv(state),
{
}

/// Every step keeps the invariant, so a resolved name is never missing when
/// it is written: processing never ends with `LabelNotFound`.
pub proof fn lemma_process_step_inv(
    state: ProcessStateView,
    event: ProcessEventView,
    step: ProcessStepView,
)
    requires
        process_inv(state),
        process_expects(state, event),
        process_next(state, event, step),
    ensures
        step matches ProcessStepView::Next { state: next, .. } ==> process_inv(next),
        !finished_with(step, ConsumerError::LabelNotFound),
{
}

/// TNS comes first: the ENS lookup is made only when TNS found no name, and
/// a name that TNS found goes straight to the account.
pub proof fn lemma_tns_before_ens(
    account: AccountView,
    address: Seq<u8>,
    ens: EnsView,
    step: ProcessStepView,
)
    requires
        process_next(
            ProcessStateView::AwaitTns { account, address },
            ProcessEventView::Resolved(ens),
            step,
        ),
    ensures
        ens.name is Some ==> step == (ProcessStepView::Next {
            state: ProcessStateView::AwaitAccountRecord { account, ens },
            action: ProcessActionView::FetchAccount { account_id: account.id },
        }),
        ens.name is None ==> step == (ProcessStepView::Next {
            state: ProcessStateView::AwaitEns { account },
            action: ProcessActionView::LookupEns { address },
        }),
{
}

/// When neither TNS nor ENS finds a name, processing ends well and writes
/// nothing.
pub proof fn lemma_no_name_writes_nothing(account: AccountView, ens: EnsView, step: ProcessStepView)
    requires
        process_next(ProcessStateView::AwaitEns { account }, ProcessEventView::Resolved(ens), step),
        ens.name is None,
    ensures
        finished_ok(step),
{
}

/// An account whose id does not parse as an address ends processing with
/// the error of that parse, before any lookup or write.
pub proof fn lemma_bad_address_reports_its_parse_error(account: AccountView, step: ProcessStepView)
    requires
        account_start(account, step),
        address_parse(encode_utf8(account.id)) is Err,
    ensures
        step == ProcessStepView::Finished(
            Err(ConsumerError::AlloyHex(address_parse(encode_utf8(account.id))->Err_0)),
        ),
{
}

/// The stored account is written back with the resolved name as label and
/// the resolved image, and its atom, when it has one, with the same name and
/// image; nothing else of either record changes.
pub proof fn lemma_resolved_name_written(
    account: AccountView,
    ens: EnsView,
    stored: AccountView,
    step: ProcessStepView,
)
    requires
        ens.name is Some,
        process_next(
            ProcessStateView::AwaitAccountRecord { account, ens },
            ProcessEventView::AccountLoaded(Some(stored)),
            step,
        ),
    ensures
        next_action(step) == Some(
            ProcessActionView::WriteAccount {
                account: AccountView { label: ens.name->0, image: ens.image, ..stored },
            },
        ),
        forall|atom: AtomView, next: ProcessStepView|
            process_next(
                ProcessStateView::AwaitAtomRecord { ens },
                ProcessEventView::AtomLoaded(Some(atom)),
                next,
            ) ==> next_action(next) == Some(
                ProcessActionView::WriteAtom {
                    atom: AtomView { label: ens.name, image: ens.image, ..atom },
                },
            ),
{
}

/// Network work comes before database writes: while an atom's data is being
/// resolved, no step writes to the database.
pub proof fn lemma_resolving_writes_nothing(
    state: ProcessStateView,
    event: ProcessEventView,
    step: ProcessStepView,
)
    requires
        resolving_data(state),
        process_expects(state, event),
        process_next(state, event, step),
    ensures
        next_action(step) matches Some(action) ==> !writes(action),
{
}

/// A CAIP-22 atom has its metadata resolved, then written, then the atom is
/// marked resolved, and processing ends well.
pub proof fn lemma_caip22_sequence(
    atom: AtomView,
    s1: ProcessStepView,
    s2: ProcessStepView,
    s3: ProcessStepView,
)
    requires
        process_next(ProcessStateView::AwaitCaip22Metadata { atom }, ProcessEventView::Done, s1),
        process_next(
            ProcessStateView::AwaitCaip22Written { atom_id: atom.id },
            ProcessEventView::Done,
            s2,
        ),
        process_next(ProcessStateView::AwaitMarkedResolved, ProcessEventView::Done, s3),
    ensures
        next_action(s1) == Some(ProcessActionView::WriteCaip22Metadata { atom }),
        next_action(s2) == Some(ProcessActionView::MarkResolved { atom_id: atom.id }),
        finished_ok(s3),
{
}

/// Metadata of a known atom type is written and the atom marked resolved;
/// metadata of the unknown type leads to the atom being marked failed.
pub proof fn lemma_unknown_type_marked_failed(atom_id: Seq<char>, kind: AtomKind, step: ProcessStepView)
    requires
        process_next(
            ProcessStateView::AwaitMetadata { atom_id },
            ProcessEventView::MetadataKind(kind),
            step,
        ),
    ensures
        kind == AtomKind::Unknown ==> step == (ProcessStepView::Next {
            state: ProcessStateView::AwaitAtomForFailure,
            action: ProcessActionView::FindAtomForFailure { atom_id },
        }),
        kind != AtomKind::Unknown ==> step == (ProcessStepView::Next {
            state: ProcessStateView::AwaitAtomUpdate,
            action: ProcessActionView::FindAndUpdateAtom { atom_id },
        }),
{
}

/// IPFS bytes that are valid UTF-8 are parsed as text, and that text holds
/// no byte order mark; other bytes are handled as binary data.
pub proof fn lemma_ipfs_bytes_routed(
    atom_id: Seq<char>,
    atom: AtomView,
    bytes: Seq<u8>,
    step: ProcessStepView,
)
    requires
        process_next(
            ProcessStateView::AwaitBytes { atom_id, atom },
            ProcessEventView::Bytes(Some(bytes)),
            step,
        ),
    ensures
        valid_utf8(bytes) ==> next_action(step) == Some(
            ProcessActionView::ParseJsonOrText { text: ipfs_text(bytes), atom },
        ) && !ipfs_text(bytes).contains(BYTE_ORDER_MARK),
        !valid_utf8(bytes) ==> next_action(step) == Some(
            ProcessActionView::HandleBinary { bytes, atom },
        ),
{
    lemma_remove_char_absent(decode_utf8(bytes), BYTE_ORDER_MARK);
}

/// A message whose atom is not found ends with `AtomNotFound`.
pub proof fn lemma_missing_atom_not_found(atom_id: Seq<char>, step: ProcessStepView)
    requires
        process_next(ProcessStateView::AwaitAtom { atom_id }, ProcessEventView::AtomLoaded(None), step),
    ensures
        step == ProcessStepView::Finished(Err(ConsumerError::AtomNotFound)),
{
}

/// A fetched atom is routed by its type: an account atom fetches the
/// account its data names, or is `AtomDataNotFound` without data; a CAIP-22
/// atom has its metadata resolved.
pub proof fn lemma_atoms_routed_by_type(atom_id: Seq<char>, atom: AtomView, step: ProcessStepView)
    requires
        process_next(
            ProcessStateView::AwaitAtom { atom_id },
            ProcessEventView::AtomLoaded(Some(atom)),
            step,
        ),
    ensures
        atom.atom_type == AtomKind::Account && atom.data is None ==> step
            == ProcessStepView::Finished(Err(ConsumerError::AtomDataNotFound)),
        atom.atom_type == AtomKind::Account && atom.data is Some ==> step == (ProcessStepView::Next {
            state: ProcessStateView::AwaitAccountByData,
            action: ProcessActionView::FetchAccount { account_id: atom.data->0 },
        }),
        atom.atom_type == AtomKind::Caip22 ==> step == (ProcessStepView::Next {
            state: ProcessStateView::AwaitCaip22Metadata { atom },
            action: ProcessActionView::ResolveCaip22 { atom },
        }),
{
}

/// Every atom that is neither an account atom nor a CAIP-22 atom, the
/// unknown type included, is processed as a regular atom: its data is
/// fetched for resolution under the message's atom id.
pub proof fn lemma_regular_atoms_fetch_their_data(
    atom_id: Seq<char>,
    atom: AtomView,
    step: ProcessStepView,
)
    requires
        atom.atom_type != AtomKind::Account,
        atom.atom_type != AtomKind::Caip22,
        process_next(
            ProcessStateView::AwaitAtom { atom_id },
            ProcessEventView::AtomLoaded(Some(atom)),
            step,
        ),
    ensures
        step == (ProcessStepView::Next {
            state: ProcessStateView::AwaitAtomData { atom_id },
            action: ProcessActionView::FetchAtomData { atom_id },
        }),
{
}

/// A name that the ENS fallback finds is kept whole, image included: the
/// stored account is fetched, and then written with that name as label and
/// that image.
pub proof fn lemma_ens_result_written_whole(
    account: AccountView,
    ens: EnsView,
    stored: AccountView,
    s1: ProcessStepView,
    s2: ProcessStepView,
)
    requires
        ens.name is Some,
        process_next(ProcessStateView::AwaitEns { account }, ProcessEventView::Resolved(ens), s1),
        s1 is Next,
        process_next(s1->state, ProcessEventView::AccountLoaded(Some(stored)), s2),
    ensures
        s1 == (ProcessStepView::Next {
            state: ProcessStateView::AwaitAccountRecord { account, ens },
            action: ProcessActionView::FetchAccount { account_id: account.id },
        }),
        next_action(s2) == Some(
            ProcessActionView::WriteAccount {
                account: AccountView { label: ens.name->0, image: ens.image, ..stored },
            },
        ),
{
}

/// The IPFS text is the decoded text with only byte order marks taken out:
/// decoded text without any is parsed exactly as decoded, every other
/// character kept in order.
pub proof fn lemma_ipfs_text_only_loses_marks(
    atom_id: Seq<char>,
    atom: AtomView,
    bytes: Seq<u8>,
    step: ProcessStepView,
)
    requires
        valid_utf8(bytes),
        !decode_utf8(bytes).contains(BYTE_ORDER_MARK),
        process_next(
            ProcessStateView::AwaitBytes { atom_id, atom },
            ProcessEventView::Bytes(Some(bytes)),
            step,
        ),
    ensures
        next_action(step) == Some(
            ProcessActionView::ParseJsonOrText { text: decode_utf8(bytes), atom },
        ),
{
    crate::text::lemma_remove_char_keeps_others(decode_utf8(bytes), BYTE_ORDER_MARK);
}

/// A regular atom's data is tried as an IPFS URI: without data (or without
/// the atom) processing ends with `AtomDataNotFound`; an IPFS response is
/// read as bytes, and data that is not an IPFS URI is parsed as it is.
pub proof fn lemma_atom_data_through_ipfs(
    atom_id: Seq<char>,
    found: Option<AtomView>,
    data: Seq<char>,
    has_response: bool,
    s1: ProcessStepView,
    s2: ProcessStepView,
)
    requires
        process_next(ProcessStateView::AwaitAtomData { atom_id }, ProcessEventView::AtomLoaded(found), s1),
        s1 is Next ==> process_next(s1->state, ProcessEventView::IpfsReply(has_response), s2),
        found is Some ==> found->0.data == Some(data),
    ensures
        found is None ==> s1 == ProcessStepView::Finished(Err(ConsumerError::AtomDataNotFound)),
        found is Some ==> s1 == (ProcessStepView::Next {
            state: ProcessStateView::AwaitIpfs { atom_id, atom: found->0, data },
            action: ProcessActionView::ResolveIpfs { data },
        }),
        found is Some && has_response ==> s2 == (ProcessStepView::Next {
            state: ProcessStateView::AwaitBytes { atom_id, atom: found->0 },
            action: ProcessActionView::ReadBytes,
        }),
        found is Some && !has_response ==> s2 == (ProcessStepView::Next {
            state: ProcessStateView::AwaitMetadata { atom_id },
            action: ProcessActionView::ParseJsonOrText { text: data, atom: found->0 },
        }),
{
}

/// The next state a step waits in, if it goes on.
pub open spec fn next_state(step: ProcessStepView) -> Option<ProcessStateView> {
    match step {
        ProcessStepView::Next { state, .. } => Some(state),
        ProcessStepView::Finished(_) => None,
    }
}

/// Operations come after what they consume: the IPFS bytes are read only
/// once a response arrived; metadata is written only from the states that
/// the metadata-producing operations lead to, and only those lead there.
pub proof fn lemma_operations_follow_their_inputs(
    state: ProcessStateView,
    event: ProcessEventView,
    step: ProcessStepView,
)
    requires
        process_expects(state, event),
        process_next(state, event, step),
    ensures
        next_action(step) == Some(ProcessActionView::ReadBytes) ==> state is AwaitIpfs && event
            == ProcessEventView::IpfsReply(true),
        next_action(step) matches Some(ProcessActionView::FindAndUpdateAtom { .. })
            ==> state is AwaitMetadata,
        next_action(step) matches Some(ProcessActionView::WriteCaip22Metadata { .. })
            ==> state is AwaitCaip22Metadata,
        next_state(step) matches Some(ProcessStateView::AwaitMetadata { .. }) ==> (
        next_action(step) matches Some(ProcessActionView::ParseJsonOrText { .. })
            || next_action(step) matches Some(ProcessActionView::HandleBinary { .. })),
        next_state(step) matches Some(ProcessStateView::AwaitCaip22Metadata { .. })
            ==> next_action(step) matches Some(ProcessActionView::ResolveCaip22 { .. }),
{
}

/// A copy of an optional string.
fn copy_opt(s: &Option<String>) -> (c: Option<String>)
    ensures
        c == *s,
{
    match s {
        Some(t) => Some(t.clone()),
        None => None,
    }
}

/// A copy of an atom.
fn copy_atom(a: &Atom) -> (c: Atom)
    ensures
        c@ == a@,
{
    Atom {
        id: a.id.clone(),
        atom_type: a.atom_type,
        data: copy_opt(&a.data),
        label: copy_opt(&a.label),
        image: copy_opt(&a.image),
    }
}

impl ResolverMessageType {
    /// How processing of `account` starts: parse its id as an address, then
    /// look up the address's TNS name.
    fn account_start(account: Account) -> (step: ProcessStep)
        ensures
            account_start(account@, step@),
            process_step_answerable(step@),
    {
        match parse_address(account.id.as_str()) {
            Ok(address) => ProcessStep::Next {
                state: ProcessState::AwaitTns { account, address },
                action: ProcessAction::LookupTns { address },
            },
            Err(e) => ProcessStep::Finished(Err(ConsumerError::AlloyHex(e))),
        }
    }

    /// The step after a name lookup of `account` settled on `ens`.
    fn after_resolution(account: Account, ens: Ens) -> (step: ProcessStep)
        ensures
            step@ == after_resolution(account@, ens@),
            process_step_answerable(step@),
    {
        if ens.name.is_some() {
            let account_id = account.id.clone();
            ProcessStep::Next {
                state: ProcessState::AwaitAccountRecord { account, ens },
                action: ProcessAction::FetchAccount { account_id },
            }
        } else {
            ProcessStep::Finished(Ok(()))
        }
    }

    /// The first step of processing this message.
    pub fn first_step(self) -> (step: ProcessStep)
        ensures
            process_first(self@, step@),
            process_step_answerable(step@),
    {
        match self {
            ResolverMessageType::Atom(atom_id) => {
                let fetch_id = atom_id.clone();
                ProcessStep::Next {
                    state: ProcessState::AwaitAtom { atom_id },
                    action: ProcessAction::FetchAtom { atom_id: fetch_id },
                }
            },
            ResolverMessageType::Account(account) => Self::account_start(account),
        }
    }

    /// The step from `state` once `event` is the outcome of its operation.
    pub fn next_step(state: ProcessState, event: ProcessEvent) -> (step: ProcessStep)
        requires
            process_expects(state@, event@),
        ensures
            process_next(state@, event@, step@),
            process_step_answerable(step@),
    {
        match (state, event) {
            (ProcessState::AwaitAtom { atom_id }, ProcessEvent::AtomLoaded(found)) => match found {
                None => ProcessStep::Finished(Err(ConsumerError::AtomNotFound)),
                Some(atom) => match atom.atom_type {
                    AtomKind::Account => match atom.data {
                        None => ProcessStep::Finished(Err(ConsumerError::AtomDataNotFound)),
                        Some(data) => ProcessStep::Next {
                            state: ProcessState::AwaitAccountByData,
                            action: ProcessAction::FetchAccount { account_id: data },
                        },
                    },
                    AtomKind::Caip22 => {
                        let resolve = copy_atom(&atom);
                        ProcessStep::Next {
                            state: ProcessState::AwaitCaip22Metadata { atom },
                            action: ProcessAction::ResolveCaip22 { atom: resolve },
                        }
                    },
                    _ => {
                        let fetch_id = atom_id.clone();
                        ProcessStep::Next {
                            state: ProcessState::AwaitAtomData { atom_id },
                            action: ProcessAction::FetchAtomData { atom_id: fetch_id },
                        }
                    },
                },
            },
            (ProcessState::AwaitAccountByData, ProcessEvent::AccountLoaded(found)) => match found {
                None => ProcessStep::Finished(Err(ConsumerError::AccountNotFound)),
                Some(account) => Self::account_start(account),
            },
            (ProcessState::AwaitCaip22Metadata { atom }, _) => {
                let atom_id = atom.id.clone();
                ProcessStep::Next {
                    state: ProcessState::AwaitCaip22Written { atom_id },
                    action: ProcessAction::WriteCaip22Metadata { atom },
                }
            },
            (ProcessState::AwaitCaip22Written { atom_id }, _) => ProcessStep::Next {
                state: ProcessState::AwaitMarkedResolved,
                action: ProcessAction::MarkResolved { atom_id },
            },
            (ProcessState::AwaitAtomData { atom_id }, ProcessEvent::AtomLoaded(found)) => match found {
                Some(atom) => match &atom.data {
                    Some(d) => {
                        let data = d.clone();
                        let uri = d.clone();
                        ProcessStep::Next {
                            state: ProcessState::AwaitIpfs { atom_id, atom, data },
                            action: ProcessAction::ResolveIpfs { data: uri },
                        }
                    },
                    None => ProcessStep::Finished(Err(ConsumerError::AtomDataNotFound)),
                },
                None => ProcessStep::Finished(Err(ConsumerError::AtomDataNotFound)),
            },
            (ProcessState::AwaitIpfs { atom_id, atom, data }, ProcessEvent::IpfsReply(has_response)) => {
                if has_response {
                    ProcessStep::Next {
                        state: ProcessState::AwaitBytes { atom_id, atom },
                        action: ProcessAction::ReadBytes,
                    }
                } else {
                    ProcessStep::Next {
                        state: ProcessState::AwaitMetadata { atom_id },
                        action: ProcessAction::ParseJsonOrText { text: data, atom },
                    }
                }
            },
            (ProcessState::AwaitBytes { atom_id, atom }, ProcessEvent::Bytes(read)) => match read {
                None => ProcessStep::Finished(Err(ConsumerError::FailedToGetBytes)),
                Some(bytes) => match decode_utf8_string(bytes.as_slice()) {
                    Some(text) => {
                        let cleaned = without_char(text.as_str(), BYTE_ORDER_MARK);
                        ProcessStep::Next {
                            state: ProcessState::AwaitMetadata { atom_id },
                            action: ProcessAction::ParseJsonOrText { text: cleaned, atom },
                        }
                    },
                    None => ProcessStep::Next {
                        state: ProcessState::AwaitMetadata { atom_id },
                        action: ProcessAction::HandleBinary { bytes, atom },
                    },
                },
            },
            (ProcessState::AwaitMetadata { atom_id }, ProcessEvent::MetadataKind(kind)) => {
                if kind != AtomKind::Unknown {
                    ProcessStep::Next {
                        state: ProcessState::AwaitAtomUpdate,
                        action: ProcessAction::FindAndUpdateAtom { atom_id },
                    }
                } else {
                    ProcessStep::Next {
                        state: ProcessState::AwaitAtomForFailure,
                        action: ProcessAction::FindAtomForFailure { atom_id },
                    }
                }
            },
            (ProcessState::AwaitAtomUpdate, ProcessEvent::AtomUpdated(updated)) => match updated {
                None => ProcessStep::Finished(Err(ConsumerError::AtomNotFound)),
                Some(atom) => match atom.image {
                    Some(url) => ProcessStep::Next {
                        state: ProcessState::AwaitImageQueued { atom_id: atom.id },
                        action: ProcessAction::QueueImage { url },
                    },
                    None => ProcessStep::Next {
                        state: ProcessState::AwaitMarkedResolved,
                        action: ProcessAction::MarkResolved { atom_id: atom.id },
                    },
                },
            },
            (ProcessState::AwaitImageQueued { atom_id }, _) => ProcessStep::Next {
                state: ProcessState::AwaitMarkedResolved,
                action: ProcessAction::MarkResolved { atom_id },
            },
            (ProcessState::AwaitAtomForFailure, ProcessEvent::AtomLoaded(found)) => match found {
                None => ProcessStep::Finished(Err(ConsumerError::AtomNotFound)),
                Some(atom) => ProcessStep::Next {
                    state: ProcessState::AwaitMarkedFailed,
                    action: ProcessAction::MarkFailed { atom_id: atom.id },
                },
            },
            (ProcessState::AwaitTns { account, address }, ProcessEvent::Resolved(ens)) => {
                if ens.name.is_some() {
                    Self::after_resolution(account, ens)
                } else {
                    ProcessStep::Next {
                        state: ProcessState::AwaitEns { account },
                        action: ProcessAction::LookupEns { address },
                    }
                }
            },
            (ProcessState::AwaitEns { account }, ProcessEvent::Resolved(ens)) => {
                Self::after_resolution(account, ens)
            },
            (ProcessState::AwaitAccountRecord { account, ens }, ProcessEvent::AccountLoaded(found)) => {
                match found {
                    None => ProcessStep::Finished(Err(ConsumerError::AccountNotFound)),
                    Some(stored) => match &ens.name {
                        None => ProcessStep::Finished(Err(ConsumerError::LabelNotFound)),
                        Some(name) => {
                            let written = Account {
                                id: stored.id,
                                atom_id: stored.atom_id,
                                label: name.clone(),
                                image: copy_opt(&ens.image),
                            };
                            ProcessStep::Next {
                                state: ProcessState::AwaitAccountWritten { account, ens },
                                action: ProcessAction::WriteAccount { account: written },
                            }
                        },
                    },
                }
            },
            (ProcessState::AwaitAccountWritten { account, ens }, _) => match account.atom_id {
                Some(atom_id) => ProcessStep::Next {
                    state: ProcessState::AwaitAtomRecord { ens },
                    action: ProcessAction::FetchAtom { atom_id },
                },
                None => ProcessStep::Finished(Ok(())),
            },
            (ProcessState::AwaitAtomRecord { ens }, ProcessEvent::AtomLoaded(found)) => match found {
                None => ProcessStep::Finished(Err(ConsumerError::AtomNotFound)),
                Some(stored) => {
                    let written = Atom {
                        id: stored.id,
                        atom_type: stored.atom_type,
                        data: stored.data,
                        label: ens.name,
                        image: ens.image,
                    };
                    ProcessStep::Next {
                        state: ProcessState::AwaitAtomWritten,
                        action: ProcessAction::WriteAtom { atom: written },
                    }
                },
            },
            (_, _) => ProcessStep::Finished(Ok(())),
        }
    }
}

} // verus!
