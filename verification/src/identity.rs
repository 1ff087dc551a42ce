//! Identities of the endpoints of a channel.

use vstd::prelude::*;

verus! {

/// A universally unique identifier, as its sixteen bytes in network order.
#[derive(Clone, Copy, Debug, PartialEq, Eq)]
pub struct Uuid {
    pub bytes: [u8; 16],
}

/// The bytes of the name-based identifier that SHA-1 gives a name in a namespace.
pub uninterp spec fn name_based(namespace: Seq<u8>, name: Seq<u8>) -> Seq<u8>;

/// The namespace of ISO object identifiers, `6ba7b812-9dad-11d1-80b4-00c04fd430c8`.
pub open spec fn oid_namespace() -> Seq<u8> {
    seq![
        0x6b, 0xa7, 0xb8, 0x12, 0x9d, 0xad, 0x11, 0xd1,
        0x80, 0xb4, 0x00, 0xc0, 0x4f, 0xd4, 0x30, 0xc8,
    ]
}

/// The version field says that SHA-1 made the identifier from a name, and the variant field
/// that the fields are laid out as usual.
pub open spec fn is_name_based(bytes: Seq<u8>) -> bool {
    &&& bytes.len() == 16
    &&& bytes[6] / 16 == 5
    &&& bytes[8] / 64 == 2
}

/// Gives the bytes of the constant `uuid::Uuid::NAMESPACE_OID`, which are those of
/// `oid_namespace`.
#[verifier::external_body]
fn namespace_oid() -> (bytes: [u8; 16])
    ensures
        bytes@ == oid_namespace(),
{
    uuid::Uuid::NAMESPACE_OID.into_bytes()
}

/// Calls `uuid::Uuid::new_v5`. The result is a function of the namespace and the name, here
/// called `name_based`, and its version and variant fields are set; how SHA-1 fills the other
/// bits is left open.
#[verifier::external_body]
fn new_v5(namespace: [u8; 16], name: &[u8]) -> (bytes: [u8; 16])
    ensures
        bytes@ == name_based(namespace@, name@),
        is_name_based(bytes@),
{
    uuid::Uuid::new_v5(&uuid::Uuid::from_bytes(namespace), name).into_bytes()
}

impl Uuid {
    /// The identifier of a name among the object identifiers.
    pub fn of_name(name: &[u8]) -> (uuid: Uuid)
        ensures
            uuid.bytes@ == name_based(oid_namespace(), name@),
            is_name_based(uuid.bytes@),
    {
        Uuid { bytes: new_v5(namespace_oid(), name) }
    }
}

/// The name of the endpoint that creates a port, `q-pid`.
pub open spec fn port_name() -> Seq<u8> {
    seq![0x71, 0x2d, 0x70, 0x69, 0x64]
}

/// The name of the endpoint that accepts a connection, `m-pid`.
pub open spec fn accept_name() -> Seq<u8> {
    seq![0x6d, 0x2d, 0x70, 0x69, 0x64]
}

/// The name of the endpoint that connects to a port, `r-pid`.
pub open spec fn connect_name() -> Seq<u8> {
    seq![0x72, 0x2d, 0x70, 0x69, 0x64]
}

/// The identity under which a port is created.
pub fn port_uuid() -> (uuid: Uuid)
    ensures
        uuid.bytes@ == name_based(oid_namespace(), port_name()),
        uuid.bytes@ == name_based(oid_namespace(), seq![0x71u8, 0x2d, 0x70, 0x69, 0x64]),
        is_name_based(uuid.bytes@),
{
    let name: [u8; 5] = [0x71, 0x2d, 0x70, 0x69, 0x64];
    assert(name@ =~= port_name());
    Uuid::of_name(&name)
}

/// The identity under which a connection is accepted.
pub fn accept_uuid() -> (uuid: Uuid)
    ensures
        uuid.bytes@ == name_based(oid_namespace(), accept_name()),
        uuid.bytes@ == name_based(oid_namespace(), seq![0x6du8, 0x2d, 0x70, 0x69, 0x64]),
        is_name_based(uuid.bytes@),
{
    let name: [u8; 5] = [0x6d, 0x2d, 0x70, 0x69, 0x64];
    assert(name@ =~= accept_name());
    Uuid::of_name(&name)
}

/// The identity under which a port is connected to.
pub fn connect_uuid() -> (uuid: Uuid)
    ensures
        uuid.bytes@ == name_based(oid_namespace(), connect_name()),
        uuid.bytes@ == name_based(oid_namespace(), seq![0x72u8, 0x2d, 0x70, 0x69, 0x64]),
        is_name_based(uuid.bytes@),
{
    let name: [u8; 5] = [0x72, 0x2d, 0x70, 0x69, 0x64];
    assert(name@ =~= connect_name());
    Uuid::of_name(&name)
}

} // verus!
