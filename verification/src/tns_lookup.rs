//! The TNS primary-name lookup of an address as a sequence of registry and
//! resolver calls: each step takes the reply to the last call and says which
//! call comes next, or what the lookup found.
use vstd::prelude::*;

use crate::records::{Ens, EnsView};
use crate::hash::namehash_of;
use crate::tns::{name_node, reverse_node_of, Tns};
use vstd::utf8::encode_utf8;

verus! {

/// Where a lookup stands, waiting for the reply to its last call.
pub enum TnsLookup {
    /// Waiting for the registry's resolver of the address's reverse node.
    ReverseResolver { node: Vec<u8> },
    /// Waiting for the primary name that the resolver holds for that node.
    PrimaryName,
    /// Waiting for the registry's resolver of the name's `.trust` node.
    AvatarResolver { name: String, node: Vec<u8> },
    /// Waiting for the name's `avatar` text record.
    AvatarText { name: String },
    /// Waiting for the avatar to be queued for IPFS upload.
    AvatarUpload { name: String, url: String },
}

/// The call that a lookup asks for next.
pub enum TnsCall {
    /// `resolver(node)` on the registry.
    Resolver { node: Vec<u8> },
    /// `name(node)` on the resolver at `resolver`.
    Name { resolver: [u8; 20], node: Vec<u8> },
    /// `text(node, key)` on the resolver at `resolver`.
    Text { resolver: [u8; 20], node: Vec<u8>, key: String },
    /// Send `url` to the IPFS upload consumer.
    QueueUpload { url: String },
}

/// The reply to a call; `None` stands for a call that failed.
pub enum TnsReply {
    Resolver(Option<[u8; 20]>),
    Name(Option<String>),
    Text(Option<String>),
    UploadQueued,
}

/// What a step leads to.
pub enum TnsStep {
    /// Make `call`, then step from `state` with its reply.
    Next { state: TnsLookup, call: TnsCall },
    /// The lookup is over.
    Finished { ens: Ens },
}

pub enum TnsLookupView {
    ReverseResolver { node: Seq<u8> },
    PrimaryName,
    AvatarResolver { name: Seq<char>, node: Seq<u8> },
    AvatarText { name: Seq<char> },
    AvatarUpload { name: Seq<char>, url: Seq<char> },
}

pub enum TnsCallView {
    Resolver { node: Seq<u8> },
    Name { resolver: Seq<u8>, node: Seq<u8> },
    Text { resolver: Seq<u8>, node: Seq<u8>, key: Seq<char> },
    QueueUpload { url: Seq<char> },
}

pub enum TnsReplyView {
    Resolver(Option<Seq<u8>>),
    Name(Option<Seq<char>>),
    Text(Option<Seq<char>>),
    UploadQueued,
}

pub enum TnsStepView {
    Next { state: TnsLookupView, call: TnsCallView },
    Finished { ens: EnsView },
}

impl View for TnsLookup {
    type V = TnsLookupView;

    open spec fn view(&self) -> TnsLookupView {
        match self {
            TnsLookup::ReverseResolver { node } => TnsLookupView::ReverseResolver { node: node@ },
            TnsLookup::PrimaryName => TnsLookupView::PrimaryName,
            TnsLookup::AvatarResolver { name, node } => TnsLookupView::AvatarResolver {
                name: name@,
                node: node@,
            },
            TnsLookup::AvatarText { name } => TnsLookupView::AvatarText { name: name@ },
            TnsLookup::AvatarUpload { name, url } => TnsLookupView::AvatarUpload {
                name: name@,
                url: url@,
            },
        }
    }
}

impl View for TnsCall {
    type V = TnsCallView;

    open spec fn view(&self) -> TnsCallView {
        match self {
            TnsCall::Resolver { node } => TnsCallView::Resolver { node: node@ },
            TnsCall::Name { resolver, node } => TnsCallView::Name {
                resolver: resolver@,
                node: node@,
            },
            TnsCall::Text { resolver, node, key } => TnsCallView::Text {
                resolver: resolver@,
                node: node@,
                key: key@,
            },
            TnsCall::QueueUpload { url } => TnsCallView::QueueUpload { url: url@ },
        }
    }
}

impl View for TnsReply {
    type V = TnsReplyView;

    open spec fn view(&self) -> TnsReplyView {
        match self {
            TnsReply::Resolver(r) => TnsReplyView::Resolver(opt_address(*r)),
            TnsReply::Name(r) => TnsReplyView::Name(crate::records::opt_chars(*r)),
            TnsReply::Text(r) => TnsReplyView::Text(crate::records::opt_chars(*r)),
            TnsReply::UploadQueued => TnsReplyView::UploadQueued,
        }
    }
}

impl View for TnsStep {
    type V = TnsStepView;

    open spec fn view(&self) -> TnsStepView {
        match self {
            TnsStep::Next { state, call } => TnsStepView::Next { state: state@, call: call@ },
            TnsStep::Finished { ens } => TnsStepView::Finished { ens: ens@ },
        }
    }
}

/// The bytes of an optional address.
pub open spec fn opt_address(a: Option<[u8; 20]>) -> Option<Seq<u8>> {
    match a {
        Some(b) => Some(b@),
        None => None,
    }
}

/// The zero address, which the registry gives for a node without resolver.
pub open spec fn zero_address() -> Seq<u8> {
    Seq::new(20, |i: int| 0u8)
}

/// The resolver that a registry reply names: none when the call failed or
/// gave the zero address.
pub open spec fn live_resolver(reply: Option<Seq<u8>>) -> Option<Seq<u8>> {
    match reply {
        Some(a) => if a == zero_address() {
            None
        } else {
            Some(a)
        },
        None => None,
    }
}

/// The text a reply holds, when the call succeeded and the text is not empty.
pub open spec fn non_empty(reply: Option<Seq<char>>) -> Option<Seq<char>> {
    match reply {
        Some(t) => if t.len() > 0 {
            Some(t)
        } else {
            None
        },
        None => None,
    }
}

/// The key of the avatar text record.
pub open spec fn avatar_key() -> Seq<char> {
    seq!['a', 'v', 'a', 't', 'a', 'r']
}

/// The first step of the lookup for an address: ask the registry for the
/// resolver of its reverse node.
pub open spec fn tns_first(address: Seq<u8>) -> TnsStepView {
    TnsStepView::Next {
        state: TnsLookupView::ReverseResolver { node: reverse_node_of(address) },
        call: TnsCallView::Resolver { node: reverse_node_of(address) },
    }
}

/// Whether `reply` answers the call that `state` waits for.
pub open spec fn tns_expects(state: TnsLookupView, reply: TnsReplyView) -> bool {
    match state {
        TnsLookupView::ReverseResolver { .. } => reply is Resolver,
        TnsLookupView::PrimaryName => reply is Name,
        TnsLookupView::AvatarResolver { .. } => reply is Resolver,
        TnsLookupView::AvatarText { .. } => reply is Text,
        TnsLookupView::AvatarUpload { .. } => reply is UploadQueued,
    }
}

/// The step from `state` on `reply`.
///
/// A missing resolver, a failed call or an empty name or text ends the
/// lookup with what was found so far; a name found without avatar is kept.
pub open spec fn tns_next(state: TnsLookupView, reply: TnsReplyView) -> TnsStepView {
    match (state, reply) {
        (TnsLookupView::ReverseResolver { node }, TnsReplyView::Resolver(r)) => match live_resolver(r) {
            Some(a) => TnsStepView::Next {
                state: TnsLookupView::PrimaryName,
                call: TnsCallView::Name { resolver: a, node },
            },
            None => TnsStepView::Finished { ens: EnsView::empty() },
        },
        (TnsLookupView::PrimaryName, TnsReplyView::Name(r)) => match non_empty(r) {
            Some(name) => TnsStepView::Next {
                state: TnsLookupView::AvatarResolver { name, node: name_node(name) },
                call: TnsCallView::Resolver { node: name_node(name) },
            },
            None => TnsStepView::Finished { ens: EnsView::empty() },
        },
        (TnsLookupView::AvatarResolver { name, node }, TnsReplyView::Resolver(r)) => match live_resolver(r) {
            Some(a) => TnsStepView::Next {
                state: TnsLookupView::AvatarText { name },
                call: TnsCallView::Text { resolver: a, node, key: avatar_key() },
            },
            None => TnsStepView::Finished { ens: EnsView { name: Some(name), image: None } },
        },
        (TnsLookupView::AvatarText { name }, TnsReplyView::Text(r)) => match non_empty(r) {
            Some(url) => TnsStepView::Next {
                state: TnsLookupView::AvatarUpload { name, url },
                call: TnsCallView::QueueUpload { url },
            },
            None => TnsStepView::Finished { ens: EnsView { name: Some(name), image: None } },
        },
        (TnsLookupView::AvatarUpload { name, url }, TnsReplyView::UploadQueued) => TnsStepView::Finished {
            ens: EnsView { name: Some(name), image: Some(url) },
        },
        _ => TnsStepView::Finished { ens: EnsView::empty() },
    }
}

/// What every lookup state keeps: the names and avatars it carries are not
/// empty.
pub open spec fn tns_lookup_inv(state: TnsLookupView) -> bool {
    match state {
        TnsLookupView::AvatarResolver { name, .. } => name.len() > 0,
        TnsLookupView::AvatarText { name } => name.len() > 0,
        TnsLookupView::AvatarUpload { name, url } => name.len() > 0 && url.len() > 0,
        _ => true,
    }
}

/// What every finished lookup gives: a name only when one is set, an
/// avatar only beside a name, and never an empty text.
pub open spec fn ens_found(ens: EnsView) -> bool {
    &&& ens.image is Some ==> ens.name is Some
    &&& ens.name matches Some(n) ==> n.len() > 0
    &&& ens.image matches Some(u) ==> u.len() > 0
}

/// A lookup starts in a state that keeps the invariant.
pub proof fn lemma_tns_first_inv(address: Seq<u8>)
    ensures
        tns_first(address) matches TnsStepView::Next { state, .. } && tns_lookup_inv(state),
{
}

/// Every step keeps the invariant, and every lookup that finishes gives a
/// result as `ens_found` describes.
pub proof fn lemma_tns_step_inv(state: TnsLookupView, reply: TnsReplyView)
    requires
        tns_lookup_inv(state),
        tns_expects(state, reply),
    ensures
        match tns_next(state, reply) {
            TnsStepView::Next { state: next, .. } => tns_lookup_inv(next),
            TnsStepView::Finished { ens } => ens_found(ens),
        },
{
}

/// When no name is found (the registry has no live resolver for the reverse
/// node, a call fails, or the primary name is empty), the lookup ends with
/// neither name nor image.
pub proof fn lemma_tns_no_name_is_empty(state: TnsLookupView, reply: TnsReplyView)
    requires
        tns_expects(state, reply),
        state is ReverseResolver || state is PrimaryName,
        tns_next(state, reply) is Finished,
    ensures
        tns_next(state, reply)->ens == EnsView::empty(),
{
}

/// Once a primary name is found, it is kept whatever happens to the avatar:
/// a failed or empty avatar lookup ends with the name and no image.
pub proof fn lemma_tns_name_survives_avatar(state: TnsLookupView, reply: TnsReplyView)
    requires
        tns_expects(state, reply),
        state is AvatarResolver || state is AvatarText,
        tns_next(state, reply) is Finished,
    ensures
        tns_next(state, reply)->ens == (EnsView {
            name: Some(
                match state {
                    TnsLookupView::AvatarResolver { name, .. } => name,
                    TnsLookupView::AvatarText { name } => name,
                    _ => Seq::empty(),
                },
            ),
            image: None,
        }),
{
}

/// Whether `reply` is of the kind that `call` gives.
pub open spec fn tns_answers(call: TnsCallView, reply: TnsReplyView) -> bool {
    match call {
        TnsCallView::Resolver { .. } => reply is Resolver,
        TnsCallView::Name { .. } => reply is Name,
        TnsCallView::Text { .. } => reply is Text,
        TnsCallView::QueueUpload { .. } => reply is UploadQueued,
    }
}

/// A step that goes on waits for exactly the kind of reply that its call
/// gives.
pub open spec fn tns_step_answerable(step: TnsStepView) -> bool {
    match step {
        TnsStepView::Next { state, call } => forall|reply: TnsReplyView|
            #[trigger] tns_answers(call, reply) ==> tns_expects(state, reply),
        TnsStepView::Finished { .. } => true,
    }
}

/// The nodes a lookup state holds are 32 bytes long.
pub open spec fn lookup_nodes_sized(state: TnsLookupView) -> bool {
    match state {
        TnsLookupView::ReverseResolver { node } => node.len() == 32,
        TnsLookupView::AvatarResolver { node, .. } => node.len() == 32,
        _ => true,
    }
}

/// The node a call passes is 32 bytes long (a `bytes32` argument).
pub open spec fn call_nodes_sized(call: TnsCallView) -> bool {
    match call {
        TnsCallView::Resolver { node } => node.len() == 32,
        TnsCallView::Name { node, .. } => node.len() == 32,
        TnsCallView::Text { node, .. } => node.len() == 32,
        TnsCallView::QueueUpload { .. } => true,
    }
}

/// The state and call a step leads to hold only 32-byte nodes.
pub open spec fn step_nodes_sized(step: TnsStepView) -> bool {
    match step {
        TnsStepView::Next { state, call } => lookup_nodes_sized(state) && call_nodes_sized(call),
        TnsStepView::Finished { .. } => true,
    }
}

/// A primary name that is found leads to the registry's resolver of that
/// name's `.trust` node: the namehash of the name itself when it already
/// ends with `".trust"`, else of the name with `".trust"` appended. The
/// lookup then waits in a state that keeps the name and that node.
pub proof fn lemma_avatar_looked_up_at_trust_node(name: Seq<char>)
    requires
        name.len() > 0,
    ensures
        seq!['.', 't', 'r', 'u', 's', 't'].is_suffix_of(name) ==> tns_next(
            TnsLookupView::PrimaryName,
            TnsReplyView::Name(Some(name)),
        ) == (TnsStepView::Next {
            state: TnsLookupView::AvatarResolver { name, node: namehash_of(encode_utf8(name)) },
            call: TnsCallView::Resolver { node: namehash_of(encode_utf8(name)) },
        }),
        !seq!['.', 't', 'r', 'u', 's', 't'].is_suffix_of(name) ==> tns_next(
            TnsLookupView::PrimaryName,
            TnsReplyView::Name(Some(name)),
        ) == (TnsStepView::Next {
            state: TnsLookupView::AvatarResolver {
                name,
                node: namehash_of(encode_utf8(name + seq!['.', 't', 'r', 'u', 's', 't'])),
            },
            call: TnsCallView::Resolver {
                node: namehash_of(encode_utf8(name + seq!['.', 't', 'r', 'u', 's', 't'])),
            },
        }),
{
    crate::tns::lemma_name_node_appends_trust_once(name);
}

/// A copy of `v`.
fn copy_bytes(v: &Vec<u8>) -> (c: Vec<u8>)
    ensures
        c@ == v@,
{
    let mut c: Vec<u8> = Vec::new();
    let mut i: usize = 0;
    while i < v.len()
        invariant
            i <= v@.len(),
            c@ =~= v@.take(i as int),
        decreases v@.len() - i,
    {
        c.push(v[i]);
        i = i + 1;
    }
    assert(v@.take(v@.len() as int) =~= v@);
    c
}

/// The resolver that a registry reply names, as in `live_resolver`.
fn resolver_in(reply: Option<[u8; 20]>) -> (r: Option<[u8; 20]>)
    ensures
        opt_address(r) == live_resolver(opt_address(reply)),
{
    match reply {
        Some(a) => {
            let mut i: usize = 0;
            while i < 20
                invariant
                    reply == Some(a),
                    i <= 20,
                    forall|j: int| 0 <= j < i ==> a@[j] == 0u8,
                decreases 20 - i,
            {
                if a[i] != 0u8 {
                    assert(a@ != zero_address());
                    return Some(a);
                }
                i = i + 1;
            }
            assert(a@ =~= zero_address());
            None
        },
        None => None,
    }
}

/// The text a reply holds, as in `non_empty`.
fn text_in(reply: Option<String>) -> (r: Option<String>)
    ensures
        crate::records::opt_chars(r) == non_empty(crate::records::opt_chars(reply)),
{
    match reply {
        Some(t) => if t.as_str().is_empty() {
            None
        } else {
            Some(t)
        },
        None => None,
    }
}

impl Tns {
    /// Starts the lookup of the primary name of `address`.
    pub fn start_lookup(address: [u8; 20]) -> (first: TnsStep)
        ensures
            first@ == tns_first(address@),
            step_nodes_sized(first@),
            tns_step_answerable(first@),
    {
        let node = Self::reverse_node(address);
        let call_node = copy_bytes(&node);
        TnsStep::Next {
            state: TnsLookup::ReverseResolver { node },
            call: TnsCall::Resolver { node: call_node },
        }
    }

    /// The step of a lookup from `state` once `reply` answers its call.
    pub fn step(state: TnsLookup, reply: TnsReply) -> (next: TnsStep)
        requires
            tns_expects(state@, reply@),
        ensures
            next@ == tns_next(state@, reply@),
            lookup_nodes_sized(state@) ==> step_nodes_sized(next@),
            tns_step_answerable(next@),
    {
        proof {
            reveal_strlit("avatar");
        }
        match state {
            TnsLookup::ReverseResolver { node } => {
                let r = match reply {
                    TnsReply::Resolver(r) => r,
                    _ => None,
                };
                match resolver_in(r) {
                    Some(a) => TnsStep::Next {
                        state: TnsLookup::PrimaryName,
                        call: TnsCall::Name { resolver: a, node },
                    },
                    None => TnsStep::Finished { ens: Ens { name: None, image: None } },
                }
            },
            TnsLookup::PrimaryName => {
                let r = match reply {
                    TnsReply::Name(r) => r,
                    _ => None,
                };
                match text_in(r) {
                    Some(name) => {
                        let node = Self::node_for_name(name.as_str());
                        let call_node = copy_bytes(&node);
                        TnsStep::Next {
                            state: TnsLookup::AvatarResolver { name, node },
                            call: TnsCall::Resolver { node: call_node },
                        }
                    },
                    None => TnsStep::Finished { ens: Ens { name: None, image: None } },
                }
            },
            TnsLookup::AvatarResolver { name, node } => {
                let r = match reply {
                    TnsReply::Resolver(r) => r,
                    _ => None,
                };
                match resolver_in(r) {
                    Some(a) => {
                        let key = "avatar".to_owned();
                        assert(key@ =~= avatar_key());
                        TnsStep::Next {
                            state: TnsLookup::AvatarText { name },
                            call: TnsCall::Text { resolver: a, node, key },
                        }
                    },
                    None => TnsStep::Finished { ens: Ens { name: Some(name), image: None } },
                }
            },
            TnsLookup::AvatarText { name } => {
                let r = match reply {
                    TnsReply::Text(r) => r,
                    _ => None,
                };
                match text_in(r) {
                    Some(url) => {
                        let kept = url.clone();
                        TnsStep::Next {
                            state: TnsLookup::AvatarUpload { name, url: kept },
                            call: TnsCall::QueueUpload { url },
                        }
                    },
                    None => TnsStep::Finished { ens: Ens { name: Some(name), image: None } },
                }
            },
            TnsLookup::AvatarUpload { name, url } => TnsStep::Finished {
                ens: Ens { name: Some(name), image: Some(url) },
            },
        }
    }
}

} // verus!
