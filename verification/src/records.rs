//! The records that resolution reads and writes, as plain values.
use vstd::prelude::*;

verus! {

/// A resolved name and its avatar.
#[derive(Clone, Debug)]
pub struct Ens {
    pub name: Option<String>,
    pub image: Option<String>,
}

/// `Ens` as characters.
pub struct EnsView {
    pub name: Option<Seq<char>>,
    pub image: Option<Seq<char>>,
}

/// The characters of an optional string.
pub open spec fn opt_chars(s: Option<String>) -> Option<Seq<char>> {
    match s {
        Some(t) => Some(t@),
        None => None,
    }
}

impl View for Ens {
    type V = EnsView;

    open spec fn view(&self) -> EnsView {
        EnsView { name: opt_chars(self.name), image: opt_chars(self.image) }
    }
}

impl EnsView {
    /// Neither a name nor an image.
    pub open spec fn empty() -> EnsView {
        EnsView { name: None, image: None }
    }
}

} // verus!
