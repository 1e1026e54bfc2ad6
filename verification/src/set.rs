//! The request that changes one link: a fluent builder that collects device
//! flags and attributes, and turns into the netlink message to dispatch.

use vstd::prelude::*;
use netlink_packet_core::NetlinkMessage;
use netlink_packet_route::RtnlMessage;
use crate::attrs::{
    data_view, info_views, port_info_block, LinkAttr, LinkAttrView, LinkInfo, PortData, PortDataView,
    PortKind, PortKindView,
};
use crate::flags::{
    compute_request_flags, has_bits, lacks_bits, lemma_last_change_wins, lemma_lower, lemma_raise,
    lemma_request_flags, request_flags, IFF_NOARP, IFF_PROMISC, IFF_UP, NLM_F_ACK, NLM_F_CREATE,
    NLM_F_EXCL, NLM_F_REPLACE, NLM_F_REQUEST,
};
use crate::message::{LinkMessage, LinkMessageView};
use crate::set_bond_port::{BondPortSetRequest, BondPortSetRequestView};
use crate::wire::{request_model, request_to_wire, RequestView};

verus! {

/// A request to change the link with a given index. Every setter takes the
/// request and gives it back with one more change; nothing is checked
/// against the other changes, the kernel does that.
pub struct LinkSetRequest {
    message: LinkMessage,
    replace: bool,
}

/// The mathematical value of a [`LinkSetRequest`].
pub struct LinkSetRequestView {
    /// The link message collected so far.
    pub message: LinkMessageView,
    /// Whether the request replaces a link that exists.
    pub replace: bool,
}

/// One call of a setter of [`LinkSetRequest`], with its arguments.
pub enum Setter {
    Up,
    Down,
    Promiscuous(bool),
    Arp(bool),
    Master(u32),
    NoMaster,
    Name(Seq<char>),
    Mtu(u32),
    Address(Seq<u8>),
    SetnsByPid(u32),
    SetnsByFd(i32),
    Replace,
    LinkInfo(PortKindView, Option<PortDataView>),
    AppendNla(LinkAttrView),
}

impl Setter {
    /// The attribute that the call adds, if it adds one.
    pub open spec fn attribute(self) -> Option<LinkAttrView> {
        match self {
            Setter::Master(index) => Some(LinkAttrView::Master(index)),
            Setter::NoMaster => Some(LinkAttrView::Master(0)),
            Setter::Name(name) => Some(LinkAttrView::IfName(name)),
            Setter::Mtu(mtu) => Some(LinkAttrView::Mtu(mtu)),
            Setter::Address(bytes) => Some(LinkAttrView::Address(bytes)),
            Setter::SetnsByPid(pid) => Some(LinkAttrView::NetNsPid(pid)),
            Setter::SetnsByFd(fd) => Some(LinkAttrView::NetNsFd(fd)),
            Setter::LinkInfo(kind, data) => Some(LinkAttrView::Info(port_info_block(kind, data))),
            Setter::AppendNla(attr) => Some(attr),
            _ => None,
        }
    }

    /// The attributes that a sequence of calls adds, in the order of the
    /// calls.
    pub open spec fn attributes(calls: Seq<Setter>) -> Seq<LinkAttrView>
        decreases calls.len(),
    {
        if calls.len() == 0 {
            Seq::empty()
        } else {
            let rest = Setter::attributes(calls.drop_last());
            match calls.last().attribute() {
                Some(attr) => rest.push(attr),
                None => rest,
            }
        }
    }
}

impl LinkSetRequestView {
    /// The request for link `index` that changes nothing.
    pub open spec fn empty(index: u32) -> LinkSetRequestView {
        LinkSetRequestView { message: LinkMessageView::empty(index), replace: false }
    }

    /// This request with `attr` added behind its attributes.
    pub open spec fn push(self, attr: LinkAttrView) -> LinkSetRequestView {
        LinkSetRequestView { message: self.message.push(attr), replace: self.replace }
    }

    /// This request with the device flag `bit` set, or cleared, and marked
    /// in the change mask.
    pub open spec fn with_flag(self, bit: u32, on: bool) -> LinkSetRequestView {
        LinkSetRequestView { message: self.message.with_flag(bit, on), replace: self.replace }
    }

    /// This request, to replace a link that exists.
    pub open spec fn replacing(self) -> LinkSetRequestView {
        LinkSetRequestView { message: self.message, replace: true }
    }

    /// This request after the setter call `call`.
    pub open spec fn apply(self, call: Setter) -> LinkSetRequestView {
        match call {
            Setter::Up => self.with_flag(IFF_UP, true),
            Setter::Down => self.with_flag(IFF_UP, false),
            Setter::Promiscuous(enable) => self.with_flag(IFF_PROMISC, enable),
            Setter::Arp(enable) => self.with_flag(IFF_NOARP, !enable),
            Setter::Replace => self.replacing(),
            _ => self.push(call.attribute()->0),
        }
    }

    /// This request after the setter calls `calls`, made in their order.
    pub open spec fn apply_all(self, calls: Seq<Setter>) -> LinkSetRequestView
        decreases calls.len(),
    {
        if calls.len() == 0 {
            self
        } else {
            self.apply_all(calls.drop_last()).apply(calls.last())
        }
    }

    /// What the netlink message of this request holds.
    pub open spec fn request(self) -> RequestView {
        RequestView::new_link(request_flags(self.replace), self.message)
    }
}

impl View for LinkSetRequest {
    type V = LinkSetRequestView;

    closed spec fn view(&self) -> LinkSetRequestView {
        LinkSetRequestView { message: self.message@, replace: self.replace }
    }
}

impl LinkSetRequest {
    /// A request for the link with index `index` that changes nothing yet.
    pub fn new(index: u32) -> (request: LinkSetRequest)
        ensures
            request@ == LinkSetRequestView::empty(index),
    {
        LinkSetRequest { message: LinkMessage::new(index), replace: false }
    }

    /// Ends the building: consumes the request and gives the netlink
    /// message to dispatch. It is a new-link message that carries the link
    /// message of the request, under the header flags for a request with
    /// acknowledgment that creates the link, and either replaces one that
    /// exists or refuses to touch it.
    pub fn execute(self) -> (msg: NetlinkMessage<RtnlMessage>)
        ensures
            request_model(msg) == self@.request(),
    {
        request_to_wire(&self.message, compute_request_flags(self.replace))
    }

    /// The link message collected so far, to read or to change in place.
    pub fn message_mut(&mut self) -> (message: &mut LinkMessage)
        ensures
            message@ == old(self)@.message,
            final(self)@ == (LinkSetRequestView {
                message: final(message)@,
                replace: old(self)@.replace,
            }),
    {
        &mut self.message
    }

    /// Attaches the link to the master device with index `master_index`.
    /// The index zero detaches it.
    pub fn master(self, master_index: u32) -> (request: LinkSetRequest)
        ensures
            request@ == self@.push(LinkAttrView::Master(master_index)),
            request@ == self@.apply(Setter::Master(master_index)),
    {
        self.append_nla(LinkAttr::Master(master_index))
    }

    /// Detaches the link from its master device.
    pub fn nomaster(self) -> (request: LinkSetRequest)
        ensures
            request@ == self@.push(LinkAttrView::Master(0)),
            request@ == self@.apply(Setter::NoMaster),
    {
        self.append_nla(LinkAttr::Master(0u32))
    }

    /// Sets the link up.
    pub fn up(self) -> (request: LinkSetRequest)
        ensures
            request@ == self@.with_flag(IFF_UP, true),
            request@ == self@.apply(Setter::Up),
    {
        let mut request = self;
        request.message.set_flag(IFF_UP, true);
        request
    }

    /// Sets the link down.
    pub fn down(self) -> (request: LinkSetRequest)
        ensures
            request@ == self@.with_flag(IFF_UP, false),
            request@ == self@.apply(Setter::Down),
    {
        let mut request = self;
        request.message.set_flag(IFF_UP, false);
        request
    }

    /// Switches the promiscuous mode of the link on or off.
    pub fn promiscuous(self, enable: bool) -> (request: LinkSetRequest)
        ensures
            request@ == self@.with_flag(IFF_PROMISC, enable),
            request@ == self@.apply(Setter::Promiscuous(enable)),
    {
        let mut request = self;
        request.message.set_flag(IFF_PROMISC, enable);
        request
    }

    /// Switches ARP on the link on or off. The device flag says that ARP is
    /// off, so it is cleared to switch ARP on.
    pub fn arp(self, enable: bool) -> (request: LinkSetRequest)
        ensures
            request@ == self@.with_flag(IFF_NOARP, !enable),
            request@ == self@.apply(Setter::Arp(enable)),
    {
        let mut request = self;
        request.message.set_flag(IFF_NOARP, !enable);
        request
    }

    /// Gives the link the name `name`.
    pub fn name(self, name: String) -> (request: LinkSetRequest)
        ensures
            request@ == self@.push(LinkAttrView::IfName(name@)),
            request@ == self@.apply(Setter::Name(name@)),
    {
        self.append_nla(LinkAttr::IfName(name))
    }

    /// Sets the maximum transmission unit of the link.
    pub fn mtu(self, mtu: u32) -> (request: LinkSetRequest)
        ensures
            request@ == self@.push(LinkAttrView::Mtu(mtu)),
            request@ == self@.apply(Setter::Mtu(mtu)),
    {
        self.append_nla(LinkAttr::Mtu(mtu))
    }

    /// Sets the hardware address of the link.
    pub fn address(self, address: Vec<u8>) -> (request: LinkSetRequest)
        ensures
            request@ == self@.push(LinkAttrView::Address(address@)),
            request@ == self@.apply(Setter::Address(address@)),
    {
        self.append_nla(LinkAttr::Address(address))
    }

    /// Moves the link into the network namespace of the process `pid`.
    pub fn setns_by_pid(self, pid: u32) -> (request: LinkSetRequest)
        ensures
            request@ == self@.push(LinkAttrView::NetNsPid(pid)),
            request@ == self@.apply(Setter::SetnsByPid(pid)),
    {
        self.append_nla(LinkAttr::NetNsPid(pid))
    }

    /// Moves the link into the network namespace behind the file descriptor
    /// `fd`.
    pub fn setns_by_fd(self, fd: i32) -> (request: LinkSetRequest)
        ensures
            request@ == self@.push(LinkAttrView::NetNsFd(fd)),
            request@ == self@.apply(Setter::SetnsByFd(fd)),
    {
        self.append_nla(LinkAttr::NetNsFd(fd))
    }

    /// Names the link and goes on to the settings of a bonding port. No
    /// setting is made yet.
    pub fn bondport(self, name: String) -> (port: BondPortSetRequest)
        ensures
            port@ == (BondPortSetRequestView {
                request: self@.push(LinkAttrView::IfName(name@)),
                settings: Seq::empty(),
            }),
    {
        BondPortSetRequest::new(self.name(name))
    }

    /// Makes the request replace a link that exists, where it would else
    /// refuse to touch one.
    pub fn replace(self) -> (request: LinkSetRequest)
        ensures
            request@ == self@.replacing(),
            request@ == self@.apply(Setter::Replace),
    {
        LinkSetRequest { message: self.message, replace: true }
    }

    /// Adds the info block of a port of kind `kind`: the kind marker first,
    /// then the settings entry if `data` holds one.
    pub fn link_info(self, kind: PortKind, data: Option<PortData>) -> (request: LinkSetRequest)
        ensures
            request@ == self@.push(LinkAttrView::Info(port_info_block(kind@, data_view(data)))),
            request@ == self@.apply(Setter::LinkInfo(kind@, data_view(data))),
    {
        self.append_nla(LinkAttr::Info(port_info(kind, data)))
    }

    /// Adds `nla` behind the attributes of the request.
    pub fn append_nla(self, nla: LinkAttr) -> (request: LinkSetRequest)
        ensures
            request@ == self@.push(nla@),
            request@ == self@.apply(Setter::AppendNla(nla@)),
    {
        let mut request = self;
        request.message.push(nla);
        request
    }
}

/// The info block of a port of kind `kind`: the kind marker first, then the
/// settings entry if `data` holds one.
pub fn port_info(kind: PortKind, data: Option<PortData>) -> (block: Vec<LinkInfo>)
    ensures
        info_views(block@) == port_info_block(kind@, data_view(data)),
{
    let mut block: Vec<LinkInfo> = Vec::new();
    block.push(LinkInfo::PortKind(kind));
    if let Some(data) = data {
        block.push(LinkInfo::PortData(data));
    }
    assert(info_views(block@) =~= port_info_block(kind@, data_view(data)));
    block
}

/// Setter calls keep the order they are made in: the attributes a request
/// has after a sequence of calls are those it had before, followed by what
/// each call adds, call by call. A call adds one attribute or none, and
/// none is moved or dropped.
pub proof fn lemma_setters_keep_call_order(request: LinkSetRequestView, calls: Seq<Setter>)
    ensures
        request.apply_all(calls).message.nlas == request.message.nlas + Setter::attributes(calls),
        request.apply_all(calls).message.header.index == request.message.header.index,
    decreases calls.len(),
{
    if calls.len() == 0 {
        assert(request.message.nlas + Setter::attributes(calls) =~= request.message.nlas);
    } else {
        lemma_setters_keep_call_order(request, calls.drop_last());
        let before = request.apply_all(calls.drop_last());
        let rest = Setter::attributes(calls.drop_last());
        match calls.last().attribute() {
            Some(attr) => {
                assert(before.apply(calls.last()) == before.push(attr));
                assert((request.message.nlas + rest).push(attr) =~= request.message.nlas
                    + rest.push(attr));
            },
            None => {},
        }
    }
}

/// Setting a link up and then down leaves the up flag cleared and marked in
/// the change mask, as setting it down alone does. Setting it up twice is
/// setting it up once: the change mask is a set of bits, and a bit is in it
/// or not. Neither call touches a flag other than the up flag, nor the
/// attributes.
pub proof fn lemma_up_then_down(request: LinkSetRequestView)
    ensures
        request.apply(Setter::Up).apply(Setter::Down) == request.apply(Setter::Down),
        lacks_bits(request.apply(Setter::Up).apply(Setter::Down).message.header.flags, IFF_UP),
        has_bits(request.apply(Setter::Up).apply(Setter::Down).message.header.change_mask, IFF_UP),
        request.apply(Setter::Up).apply(Setter::Up) == request.apply(Setter::Up),
        has_bits(request.apply(Setter::Up).message.header.flags, IFF_UP),
        has_bits(request.apply(Setter::Up).message.header.change_mask, IFF_UP),
        forall|other: u32|
            lacks_bits(other, IFF_UP) ==> #[trigger] (request.apply(Setter::Up).apply(
                Setter::Down,
            ).message.header.flags & other) == request.message.header.flags & other,
        request.apply(Setter::Up).apply(Setter::Down).message.nlas == request.message.nlas,
{
    let header = request.message.header;
    lemma_raise(header.flags, IFF_UP);
    lemma_raise(header.change_mask, IFF_UP);
    lemma_lower(header.flags, IFF_UP);
    lemma_last_change_wins(header.flags, IFF_UP);
}

/// A request refuses to touch a link that exists until it is told to
/// replace it: its header flags go from `EXCL | CREATE` to
/// `REPLACE | CREATE`, both with `REQUEST | ACK`. Telling it twice is
/// telling it once, and nothing else of the request changes.
pub proof fn lemma_replace(request: LinkSetRequestView)
    ensures
        !request.replace ==> request.request().flags == NLM_F_REQUEST | NLM_F_ACK | NLM_F_EXCL
            | NLM_F_CREATE,
        request.apply(Setter::Replace).request().flags == NLM_F_REQUEST | NLM_F_ACK | NLM_F_REPLACE
            | NLM_F_CREATE,
        request.apply(Setter::Replace).request().flags & NLM_F_EXCL == 0,
        !request.replace ==> request.request().flags & NLM_F_REPLACE == 0,
        request.apply(Setter::Replace).apply(Setter::Replace) == request.apply(Setter::Replace),
        request.apply(Setter::Replace).message == request.message,
{
    lemma_request_flags();
}

/// Detaching a link is attaching it to the master with index zero.
pub proof fn lemma_nomaster_is_master_zero(request: LinkSetRequestView)
    ensures
        request.apply(Setter::NoMaster) == request.apply(Setter::Master(0)),
        request.apply(Setter::NoMaster).request() == request.apply(Setter::Master(0)).request(),
{
}

} // verus!
