use vstd::prelude::*;

use crate::account::{AccountId, CodeHash};
use crate::table::Table;

verus! {

/// Whether all 32 bytes of `a` equal `b`.
pub open spec fn filled_with(a: [u8; 32], b: u8) -> bool {
    forall|i: int| 0 <= i < 32 ==> a[i] == b
}

/// A port: a kind of application contract that may connect to the token contract.
#[derive(Debug, Clone, Copy, PartialEq, Eq)]
pub struct Port {
    /// Code hash of the application contracts that may connect through this port.
    pub application: CodeHash,
    /// Tax on transfers through this port, as a divisor of the amount.
    pub tax: u128,
    /// The most this port's applications may take from the rewards pool.
    pub cap: u128,
    /// If locked, only the token contract owner may operate sockets on this port.
    pub locked: bool,
    /// Tokens paid or issued through this port so far.
    pub paid: u128,
    /// Tokens collected from this port in taxes so far.
    pub collected: u128,
    /// Owner of the port.
    pub owner: AccountId,
}

/// The port that a lookup of an unknown port number answers.
pub open spec fn is_default_port(p: Port) -> bool {
    &&& filled_with(p.application.0, 0)
    &&& p.tax == 0
    &&& p.cap == 0
    &&& p.locked
    &&& p.paid == 0
    &&& p.collected == 0
    &&& filled_with(p.owner.0, 1)
}

impl Default for Port {
    fn default() -> (p: Port)
        ensures
            is_default_port(p),
    {
        Port {
            application: CodeHash::zero(),
            tax: 0,
            cap: 0,
            locked: true,
            paid: 0,
            collected: 0,
            owner: AccountId::filled(1),
        }
    }
}

/// A socket: the operator of an application contract and the port it connects through.
#[derive(Debug, Clone, Copy, PartialEq, Eq)]
pub struct Socket {
    /// Who operates the connected application contract.
    pub operator: AccountId,
    /// The port the application connects through.
    pub portnumber: u16,
}

/// The socket that a lookup of an unknown application answers.
pub open spec fn is_default_socket(s: Socket) -> bool {
    filled_with(s.operator.0, 1) && s.portnumber == 65535
}

impl Default for Socket {
    fn default() -> (s: Socket)
        ensures
            is_default_socket(s),
    {
        Socket { operator: AccountId::filled(1), portnumber: 65535 }
    }
}

/// Ports by number and sockets by application contract address.
pub struct AppData {
    pub ports: Table<u16, Port>,
    pub sockets: Table<AccountId, Socket>,
    pub _reserved: Option<()>,
}

impl AppData {
    pub fn new() -> (a: AppData)
        ensures
            a.ports@ == Map::<u16, Port>::empty(),
            a.sockets@ == Map::<AccountId, Socket>::empty(),
    {
        AppData { ports: Table::new(), sockets: Table::new(), _reserved: None }
    }

    /// The port with this number, or the default port when there is none.
    pub fn port_or_default(&self, portnumber: u16) -> (p: Port)
        ensures
            self.ports@.contains_key(portnumber) ==> p == self.ports@[portnumber],
            !self.ports@.contains_key(portnumber) ==> is_default_port(p),
    {
        match self.ports.get(&portnumber) {
            Some(p) => p,
            None => Port::default(),
        }
    }

    /// The socket of this application, or the default socket when there is none.
    pub fn socket_or_default(&self, application: AccountId) -> (s: Socket)
        ensures
            self.sockets@.contains_key(application) ==> s == self.sockets@[application],
            !self.sockets@.contains_key(application) ==> is_default_socket(s),
    {
        match self.sockets.get(&application) {
            Some(s) => s,
            None => Socket::default(),
        }
    }
}

} // verus!
