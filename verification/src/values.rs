//! Plain owned value types handed to callers: vectors, transforms and the
//! session endpoint.
//!
//! The host stores vector components as raw 32-bit scalar lanes. They are
//! carried here as the untouched bit patterns so that no floating-point
//! arithmetic happens on this side; a caller that wants the numeric value
//! reinterprets the lanes itself.

use vstd::prelude::*;
use crate::foreign::{le16, le32, ForeignMemory};

verus! {

/// A three-component vector of raw 32-bit lanes, in the host's own encoding.
#[derive(Clone, Copy, Debug, PartialEq, Eq, Structural)]
pub struct Vec3 {
    pub x: u32,
    pub y: u32,
    pub z: u32,
}

impl Vec3 {
    /// The all-zero vector, the documented default when a foreign object
    /// is absent.
    pub fn zero() -> (r: Vec3)
        ensures
            r == (Vec3 { x: 0, y: 0, z: 0 }),
    {
        Vec3 { x: 0, y: 0, z: 0 }
    }
}

/// A transform: three axis rows and a position, as the host lays them out.
#[derive(Clone, Copy, Debug, PartialEq, Eq, Structural)]
pub struct Matrix {
    pub right: Vec3,
    pub up: Vec3,
    pub at: Vec3,
    pub pos: Vec3,
}

/// The transport endpoint of the current session: a raw IPv4 address and
/// a port, both in the host's stored byte order.
#[derive(Clone, Copy, Debug, PartialEq, Eq, Structural)]
pub struct Endpoint {
    pub ip: u32,
    pub port: u16,
}

/// The vector stored at address `a`: three 32-bit lanes.
pub open spec fn vec3_at(mem: ForeignMemory, a: int) -> Vec3
    recommends
        mem.readable(a, 12),
{
    Vec3 {
        x: le32(mem.bytes_at(a, 4)) as u32,
        y: le32(mem.bytes_at(a + 4, 4)) as u32,
        z: le32(mem.bytes_at(a + 8, 4)) as u32,
    }
}

/// The vector stored at address `a`, or the zero vector when the
/// twelve bytes are not all present.
pub open spec fn vec3_or_zero(mem: ForeignMemory, a: int) -> Vec3 {
    if mem.readable(a, 12) {
        vec3_at(mem, a)
    } else {
        Vec3 { x: 0, y: 0, z: 0 }
    }
}

/// Read the vector stored at address `a`.
pub fn read_vec3(mem: &ForeignMemory, a: usize) -> (r: Option<Vec3>)
    requires
        mem.wf(),
    ensures
        r is Some <==> mem.readable(a as int, 12),
        r is Some ==> r->Some_0 == vec3_at(*mem, a as int),
{
    if a > usize::MAX - 12 {
        proof {
            assert(!mem.readable(a as int, 12));
        }
        return None;
    }
    match (mem.read_u32(a), mem.read_u32(a + 4), mem.read_u32(a + 8)) {
        (Some(x), Some(y), Some(z)) => Some(Vec3 { x, y, z }),
        _ => None,
    }
}

/// Read the vector field `off` bytes into the object at `obj`, falling
/// back to the zero vector when it is not fully present.
pub fn field_vec3_or_zero(mem: &ForeignMemory, obj: usize, off: usize) -> (r: Vec3)
    requires
        mem.wf(),
    ensures
        r == vec3_or_zero(*mem, obj + off),
{
    match obj.checked_add(off) {
        Some(a) => match read_vec3(mem, a) {
            Some(v) => v,
            None => Vec3 { x: 0, y: 0, z: 0 },
        },
        None => {
            proof {
                assert(!mem.readable(obj + off, 12));
            }
            Vec3 { x: 0, y: 0, z: 0 }
        },
    }
}

/// The transform stored at address `p`: three axis rows and a position,
/// sixteen bytes apart, the fourth lane of each row being engine padding.
pub open spec fn matrix_at(mem: ForeignMemory, p: int) -> Matrix
    recommends
        mem.readable(p, 60),
{
    Matrix {
        right: vec3_at(mem, p),
        up: vec3_at(mem, p + 16),
        at: vec3_at(mem, p + 32),
        pos: vec3_at(mem, p + 48),
    }
}

/// Read the transform that the non-null pointer `p` refers to.
pub fn read_matrix(mem: &ForeignMemory, p: usize) -> (r: Option<Matrix>)
    requires
        mem.wf(),
    ensures
        r is Some <==> p != 0 && mem.readable(p as int, 60),
        r is Some ==> r->Some_0 == matrix_at(*mem, p as int),
{
    if p == 0 || p > usize::MAX - 60 {
        proof {
            if p != 0 {
                assert(!mem.readable(p as int, 60));
            }
        }
        return None;
    }
    match (
        read_vec3(mem, p),
        read_vec3(mem, p + 16),
        read_vec3(mem, p + 32),
        read_vec3(mem, p + 48),
    ) {
        (Some(right), Some(up), Some(at), Some(pos)) => Some(Matrix { right, up, at, pos }),
        _ => None,
    }
}

/// The endpoint stored at address `a`: the address lanes then the port.
pub open spec fn endpoint_at(mem: ForeignMemory, a: int) -> Endpoint
    recommends
        mem.readable(a, 6),
{
    Endpoint { ip: le32(mem.bytes_at(a, 4)) as u32, port: le16(mem.bytes_at(a + 4, 2)) as u16 }
}

/// Read the endpoint stored `off` bytes into the object at `obj`.
pub fn field_endpoint(mem: &ForeignMemory, obj: usize, off: usize) -> (r: Option<Endpoint>)
    requires
        mem.wf(),
    ensures
        r is Some <==> mem.readable(obj + off, 6),
        r is Some ==> r->Some_0 == endpoint_at(*mem, obj + off),
{
    match obj.checked_add(off) {
        Some(a) => {
            if a > usize::MAX - 6 {
                proof {
                    assert(!mem.readable(obj + off, 6));
                }
                return None;
            }
            match (mem.read_u32(a), mem.read_u16(a + 4)) {
                (Some(ip), Some(port)) => Some(Endpoint { ip, port }),
                _ => None,
            }
        },
        None => {
            proof {
                assert(!mem.readable(obj + off, 6));
            }
            None
        },
    }
}

} // verus!
