pub mod balance;
pub mod endpoints;
pub mod index_set;
pub mod listing;
pub mod ne_set;
pub mod provider;
pub mod registry;
pub mod weight;
use vstd::prelude::*;

verus! {

/// The kind of request an endpoint serves.
#[derive(Debug, Clone, Copy, PartialEq, Eq, Hash, Structural)]
pub enum EndpointType {
    Chat,
    Image,
    Audio,
}

impl EndpointType {
    /// The small integer that stands for this endpoint type in maps.
    pub open spec fn spec_code(self) -> u8 {
        match self {
            EndpointType::Chat => 0,
            EndpointType::Image => 1,
            EndpointType::Audio => 2,
        }
    }

    /// The small integer that stands for this endpoint type in maps.
    pub fn code(&self) -> (c: u8)
        ensures
            c == self.spec_code(),
    {
        match self {
            EndpointType::Chat => 0,
            EndpointType::Image => 1,
            EndpointType::Audio => 2,
        }
    }

    /// Distinct endpoint types have distinct codes, each below 3.
    pub proof fn lemma_code_injective()
        ensures
            forall|a: EndpointType, b: EndpointType| #[trigger] a.spec_code() == #[trigger] b.spec_code() ==> a == b,
            forall|a: EndpointType| #[trigger] a.spec_code() < 3,
    {
    }
}

} // verus!
