//! The part of the network configuration that the node reads when it resolves
//! a publication: addresses, model identifiers, publications and keys.

use vstd::prelude::*;

verus! {

/// The address of one element of a node.
#[derive(Clone, Copy, Debug, PartialEq, Eq, Structural)]
pub struct UnicastAddress(pub u16);

/// A destination in the mesh, as its 16-bit value.
#[derive(Clone, Copy, Debug, PartialEq, Eq, Structural)]
pub struct Address(pub u16);

/// Identifies a model: one the standard defines, or one of a vendor.
#[derive(Clone, Copy, Debug, PartialEq, Eq, Structural)]
pub enum ModelIdentifier {
    SIG(u16),
    Vendor(u16, u16),
}

/// Names the network key that a message is secured with.
#[derive(Clone, Copy, Debug, PartialEq, Eq, Structural)]
pub struct NetworkKeyHandle(pub u16);

/// The device's 128-bit identity.
#[derive(Clone, Copy, Debug, PartialEq, Eq)]
pub struct Uuid(pub [u8; 16]);

/// A rule that sends a model's messages to a target address.
#[derive(Clone, Copy, Debug, PartialEq, Eq, Structural)]
pub struct Publication {
    pub element_address: UnicastAddress,
    pub model_identifier: ModelIdentifier,
    pub publish_address: Address,
    pub app_key_index: u16,
    pub publish_ttl: Option<u8>,
}

/// An application key, by its index and its short identifier.
#[derive(Clone, Copy, Debug, PartialEq, Eq, Structural)]
pub struct AppKeyDetails {
    pub index: u16,
    pub aid: u8,
}

/// One network the node belongs to.
#[derive(Clone, Debug, PartialEq, Eq)]
pub struct NetworkDetails {
    pub key: NetworkKeyHandle,
    pub nid: u8,
    pub publications: Vec<Publication>,
    pub app_keys: Vec<AppKeyDetails>,
}

/// The node's configuration. A node that has not been provisioned has no
/// network.
#[derive(Clone, Debug, PartialEq, Eq)]
pub struct Configuration {
    pub network: Option<NetworkDetails>,
}

impl Publication {
    /// Whether this publication is the one of `model` on `element`.
    pub open spec fn is_for(&self, element: UnicastAddress, model: ModelIdentifier) -> bool {
        self.element_address == element && self.model_identifier == model
    }
}

/// The first publication at or after position `from` that is for `model` on
/// `element`.
pub open spec fn first_publication_from(
    publications: Seq<Publication>,
    from: int,
    element: UnicastAddress,
    model: ModelIdentifier,
) -> Option<Publication>
    decreases publications.len() - from,
{
    if from < 0 || from >= publications.len() {
        None
    } else if publications[from].is_for(element, model) {
        Some(publications[from])
    } else {
        first_publication_from(publications, from + 1, element, model)
    }
}

/// The first application key at or after position `from` with index `index`.
pub open spec fn first_app_key_from(keys: Seq<AppKeyDetails>, from: int, index: u16) -> Option<
    AppKeyDetails,
>
    decreases keys.len() - from,
{
    if from < 0 || from >= keys.len() {
        None
    } else if keys[from].index == index {
        Some(keys[from])
    } else {
        first_app_key_from(keys, from + 1, index)
    }
}

impl NetworkDetails {
    /// The publication that applies to `model` on `element`: the first such
    /// entry, in the order in which the publications are stored.
    pub open spec fn publication_for(
        &self,
        element: UnicastAddress,
        model: ModelIdentifier,
    ) -> Option<Publication> {
        first_publication_from(self.publications@, 0, element, model)
    }

    /// The application key with index `index`: the first such entry.
    pub open spec fn app_key(&self, index: u16) -> Option<AppKeyDetails> {
        first_app_key_from(self.app_keys@, 0, index)
    }

    pub fn find_publication(&self, element: &UnicastAddress, model: &ModelIdentifier) -> (found:
        Option<Publication>)
        ensures
            found == self.publication_for(*element, *model),
    {
        let mut i: usize = 0;
        while i < self.publications.len()
            invariant
                i <= self.publications.len(),
                self.publication_for(*element, *model) == first_publication_from(
                    self.publications@,
                    i as int,
                    *element,
                    *model,
                ),
            decreases self.publications.len() - i,
        {
            let candidate = self.publications[i];
            if candidate.element_address == *element && candidate.model_identifier == *model {
                return Some(candidate);
            }
            i += 1;
        }
        None
    }

    pub fn find_app_key_by_index(&self, index: &u16) -> (found: Option<AppKeyDetails>)
        ensures
            found == self.app_key(*index),
    {
        let mut i: usize = 0;
        while i < self.app_keys.len()
            invariant
                i <= self.app_keys.len(),
                self.app_key(*index) == first_app_key_from(self.app_keys@, i as int, *index),
            decreases self.app_keys.len() - i,
        {
            let candidate = self.app_keys[i];
            if candidate.index == *index {
                return Some(candidate);
            }
            i += 1;
        }
        None
    }
}

/// A publication that is found is stored in the list and is for the model and
/// element that were asked for; none is found exactly if no entry is.
pub proof fn lemma_first_publication(
    publications: Seq<Publication>,
    from: int,
    element: UnicastAddress,
    model: ModelIdentifier,
)
    requires
        0 <= from,
    ensures
        match first_publication_from(publications, from, element, model) {
            Some(p) => p.is_for(element, model) && exists|i: int|
                from <= i < publications.len() && publications[i] == p,
            None => forall|i: int|
                from <= i < publications.len() ==> !(#[trigger] publications[i]).is_for(
                    element,
                    model,
                ),
        },
    decreases publications.len() - from,
{
    if from < publications.len() && !publications[from].is_for(element, model) {
        lemma_first_publication(publications, from + 1, element, model);
    }
}

/// An application key that is found is stored in the list and has the index
/// that was asked for; none is found exactly if no entry has it.
pub proof fn lemma_first_app_key(keys: Seq<AppKeyDetails>, from: int, index: u16)
    requires
        0 <= from,
    ensures
        match first_app_key_from(keys, from, index) {
            Some(k) => k.index == index && exists|i: int| from <= i < keys.len() && keys[i] == k,
            None => forall|i: int| from <= i < keys.len() ==> (#[trigger] keys[i]).index != index,
        },
    decreases keys.len() - from,
{
    if from < keys.len() && keys[from].index != index {
        lemma_first_app_key(keys, from + 1, index);
    }
}

} // verus!
