//! The version-erased view of the host's network session object.

use vstd::prelude::*;
use crate::foreign::{ptr_or_null, ForeignMemory};
use crate::layout::{spec_table, table_for, Layout};
use crate::values::{endpoint_at, field_endpoint, Endpoint};

verus! {

/// Offset, from the module base, of the session teardown function.
pub const QUIT_OFF: usize = 0x68270;

/// A read-only view of the current session object, bound to the layout it
/// was resolved under. [`NetGame::get`] hands one out only while the host
/// has a session object; a handle built with `addr == 0` is unresolved
/// and every accessor on it yields its documented default.
#[derive(Clone, Copy, Debug, PartialEq, Eq, Structural)]
pub struct NetGame {
    pub layout: Layout,
    pub addr: usize,
}

/// The session pointer the module stores for layout `l`.
pub open spec fn session_ptr(mem: ForeignMemory, l: Layout) -> int {
    ptr_or_null(mem, mem.base + spec_table(l).netgame_off)
}

/// One call into the host that tears its session down, described as plain
/// values: the function to enter and the session object to hand it.
#[derive(Clone, Copy, Debug, PartialEq, Eq, Structural)]
pub struct DisconnectCall {
    pub func: usize,
    pub session: usize,
}

impl NetGame {
    /// Resolve the current session view through the active layout's
    /// table. Absent while the host has not constructed a session object.
    pub fn get(mem: &ForeignMemory, layout: Layout) -> (r: Option<NetGame>)
        requires
            mem.wf(),
        ensures
            r is Some <==> session_ptr(*mem, layout) != 0,
            r is Some ==> r->Some_0 == (NetGame {
                layout,
                addr: session_ptr(*mem, layout) as usize,
            }),
    {
        let t = table_for(layout);
        let addr = mem.field_ptr(mem.base, t.netgame_off);
        if addr == 0 {
            None
        } else {
            Some(NetGame { layout, addr })
        }
    }

    /// The transport endpoint of the session, absent while the host has no
    /// session object or the endpoint field is not present.
    pub fn addr(&self, mem: &ForeignMemory) -> (r: Option<Endpoint>)
        requires
            mem.wf(),
        ensures
            r is Some <==> self.addr != 0 && mem.readable(
                self.addr + spec_table(self.layout).endpoint_off,
                6,
            ),
            r is Some ==> r->Some_0 == endpoint_at(
                *mem,
                self.addr + spec_table(self.layout).endpoint_off,
            ),
    {
        if self.addr == 0 {
            return None;
        }
        let t = table_for(self.layout);
        field_endpoint(mem, self.addr, t.endpoint_off)
    }

    /// The teardown call that disconnects the session. Supported only
    /// under `Layout::V037R3`; under the other layouts the request is a
    /// documented no-op, as it is when no session object exists.
    pub fn quit_game(&self, mem: &ForeignMemory) -> (r: Option<DisconnectCall>)
        requires
            mem.wf(),
        ensures
            r is Some <==> self.layout == Layout::V037R3 && self.addr != 0 && mem.base + QUIT_OFF
                <= usize::MAX,
            r is Some ==> r->Some_0 == (DisconnectCall {
                func: (mem.base + QUIT_OFF) as usize,
                session: self.addr,
            }),
    {
        if !matches!(self.layout, Layout::V037R3) || self.addr == 0 {
            return None;
        }
        match mem.base.checked_add(QUIT_OFF) {
            Some(func) => Some(DisconnectCall { func, session: self.addr }),
            None => None,
        }
    }
}

} // verus!
