//! Link-set requests for rtnetlink: a fluent builder for the changes to make
//! to one network link, the nested bonding-port extension, the conversion of
//! a finished request to a netlink message, and the state machine that reads
//! the kernel's replies.

pub mod attrs;
pub mod flags;
pub mod message;
pub mod set;
pub mod set_bond_port;
pub mod transaction;
pub mod wire;

pub use attrs::{BondPortAttr, LinkAttr, LinkInfo, PortData, PortKind};
pub use message::{LinkHeader, LinkMessage};
pub use set::LinkSetRequest;
pub use set_bond_port::BondPortSetRequest;
pub use transaction::{drain, step, Action, Drained, Error, Event, Reply, TransactionState};
