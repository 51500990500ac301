//! Physical addresses: the address by which a hardware engine reaches a
//! buffer, and how a buffer handle resolves to one.

use vstd::prelude::*;

verus! {

/// The address of a buffer on the bus. Zero stands for "not resolved" and
/// is never a usable address.
#[derive(Clone, Copy, Debug, PartialEq, Eq, Structural)]
pub struct G2DPhysical(pub u64);

/// What names a buffer before its address is resolved.
#[derive(Clone, Copy, Debug, PartialEq, Eq, Structural)]
pub enum BufferHandle {
    /// The buffer's address on the bus is already known.
    Physical(u64),
    /// The buffer is known by the descriptor of its memory, and the device
    /// has to be asked where that memory lies.
    Descriptor(i32),
}

/// What came of asking the device where a descriptor's memory lies.
#[derive(Clone, Copy, Debug, PartialEq, Eq, Structural)]
pub enum AddressQuery {
    /// The request could not be made.
    Failed,
    /// The device answered with a status, zero for success, and an address.
    Answered { status: i32, address: u64 },
}

impl AddressQuery {
    /// The address that a query resolves to: the one the device gave with a
    /// zero status, and zero otherwise.
    pub open spec fn address(self) -> u64 {
        match self {
            AddressQuery::Failed => 0,
            AddressQuery::Answered { status, address } => if status == 0 {
                address
            } else {
                0
            },
        }
    }
}

impl BufferHandle {
    /// The descriptor to ask the device about, where the handle does not
    /// carry the address itself.
    pub open spec fn spec_descriptor(self) -> Option<i32> {
        match self {
            BufferHandle::Physical(_) => None,
            BufferHandle::Descriptor(fd) => Some(fd),
        }
    }

    /// The address that the handle resolves to, given what the device
    /// answered about its descriptor. A handle that carries its address
    /// resolves to it whatever the device said.
    pub open spec fn resolved(self, query: AddressQuery) -> G2DPhysical {
        match self {
            BufferHandle::Physical(address) => G2DPhysical(address),
            BufferHandle::Descriptor(_) => G2DPhysical(query.address()),
        }
    }

    /// The descriptor to ask the device about, or `None` where the handle
    /// carries the address itself and nothing has to be asked.
    #[verifier::when_used_as_spec(spec_descriptor)]
    pub fn descriptor(self) -> (fd: Option<i32>)
        ensures
            fd == self.spec_descriptor(),
    {
        match self {
            BufferHandle::Physical(_) => None,
            BufferHandle::Descriptor(fd) => Some(fd),
        }
    }

    /// Resolves the handle with the device's answer about its descriptor.
    pub fn resolve(self, query: AddressQuery) -> (phys: G2DPhysical)
        ensures
            phys == self.resolved(query),
    {
        match self {
            BufferHandle::Physical(address) => G2DPhysical::from_address(address),
            BufferHandle::Descriptor(_) => G2DPhysical::from_query(query),
        }
    }
}

impl G2DPhysical {
    /// Whether the address is a usable one.
    pub open spec fn spec_is_resolved(self) -> bool {
        self.0 != 0
    }

    /// An address that is already known.
    pub fn from_address(address: u64) -> (phys: G2DPhysical)
        ensures
            phys == G2DPhysical(address),
    {
        G2DPhysical(address)
    }

    /// The address that the device's answer resolves to: zero unless the
    /// device reported success.
    pub fn from_query(query: AddressQuery) -> (phys: G2DPhysical)
        ensures
            phys == G2DPhysical(query.address()),
    {
        match query {
            AddressQuery::Failed => G2DPhysical(0),
            AddressQuery::Answered { status, address } => {
                if status != 0 {
                    G2DPhysical(0)
                } else {
                    G2DPhysical(address)
                }
            },
        }
    }

    /// The address as a number.
    pub fn address(self) -> (a: u64)
        ensures
            a == self.0,
    {
        self.0
    }

    /// Whether the address is a usable one.
    #[verifier::when_used_as_spec(spec_is_resolved)]
    pub fn is_resolved(self) -> (b: bool)
        ensures
            b == self.spec_is_resolved(),
    {
        self.0 != 0
    }
}

} // verus!
