//! The request that changes a link which is a port of a bond.

use vstd::prelude::*;
use netlink_packet_core::NetlinkMessage;
use netlink_packet_route::RtnlMessage;
use crate::attrs::{
    bond_port_block, data_view, has_port_data, kind_precedes_data, lemma_bond_port_block, port_info_block,
    BondPortAttr, LinkAttr, LinkAttrView, LinkInfo, LinkInfoView, PortData, PortKind,
    PortKindView,
};
use crate::flags::{IFF_UP, NLM_F_ACK, NLM_F_REQUEST};
use crate::message::LinkMessage;
use crate::set::{port_info, LinkSetRequest, LinkSetRequestView};
use crate::wire::{request_model, request_to_wire, RequestView};

verus! {

/// A link-set request together with the settings of a bonding port that
/// are still to be added to it.
pub struct BondPortSetRequest {
    request: LinkSetRequest,
    info_port_data: Vec<BondPortAttr>,
}

/// The mathematical value of a [`BondPortSetRequest`].
pub struct BondPortSetRequestView {
    /// The link-set request.
    pub request: LinkSetRequestView,
    /// The settings made so far, in the order they were made.
    pub settings: Seq<BondPortAttr>,
}

/// One call of a setter of [`BondPortSetRequest`], with its arguments.
pub enum PortSetter {
    Up,
    QueueId(u16),
    Prio(i32),
    LinkFailureCount(u32),
    MatchName(Seq<char>),
}

impl PortSetter {
    /// The setting of the bonding port that the call makes, if it makes
    /// one.
    pub open spec fn setting(self) -> Option<BondPortAttr> {
        match self {
            PortSetter::QueueId(queue_id) => Some(BondPortAttr::QueueId(queue_id)),
            PortSetter::Prio(prio) => Some(BondPortAttr::Prio(prio)),
            PortSetter::LinkFailureCount(count) => Some(BondPortAttr::LinkFailureCount(count)),
            _ => None,
        }
    }

    /// The link-level attribute that the call adds, if it adds one.
    pub open spec fn attribute(self) -> Option<LinkAttrView> {
        match self {
            PortSetter::MatchName(name) => Some(LinkAttrView::IfName(name)),
            _ => None,
        }
    }

    /// The settings that a sequence of calls makes, in the order of the
    /// calls.
    pub open spec fn settings(calls: Seq<PortSetter>) -> Seq<BondPortAttr>
        decreases calls.len(),
    {
        if calls.len() == 0 {
            Seq::empty()
        } else {
            let rest = PortSetter::settings(calls.drop_last());
            match calls.last().setting() {
                Some(setting) => rest.push(setting),
                None => rest,
            }
        }
    }

    /// The link-level attributes that a sequence of calls adds, in the
    /// order of the calls.
    pub open spec fn attributes(calls: Seq<PortSetter>) -> Seq<LinkAttrView>
        decreases calls.len(),
    {
        if calls.len() == 0 {
            Seq::empty()
        } else {
            let rest = PortSetter::attributes(calls.drop_last());
            match calls.last().attribute() {
                Some(attr) => rest.push(attr),
                None => rest,
            }
        }
    }
}

impl BondPortSetRequestView {
    /// This request after the setter call `call`.
    pub open spec fn apply(self, call: PortSetter) -> BondPortSetRequestView {
        match call {
            PortSetter::Up => BondPortSetRequestView {
                request: self.request.with_flag(IFF_UP, true),
                settings: self.settings,
            },
            PortSetter::MatchName(name) => BondPortSetRequestView {
                request: self.request.push(LinkAttrView::IfName(name)),
                settings: self.settings,
            },
            _ => self.push(call.setting()->0),
        }
    }

    /// This request after the setter calls `calls`, made in their order.
    pub open spec fn apply_all(self, calls: Seq<PortSetter>) -> BondPortSetRequestView
        decreases calls.len(),
    {
        if calls.len() == 0 {
            self
        } else {
            self.apply_all(calls.drop_last()).apply(calls.last())
        }
    }

    /// This request with `setting` added behind its settings.
    pub open spec fn push(self, setting: BondPortAttr) -> BondPortSetRequestView {
        BondPortSetRequestView { request: self.request, settings: self.settings.push(setting) }
    }

    /// The link-set request that this one ends as: the info block of a
    /// bonding port, with the settings made, is added behind its attributes.
    pub open spec fn finished(self) -> LinkSetRequestView {
        self.request.push(LinkAttrView::Info(bond_port_block(self.settings)))
    }
}

impl View for BondPortSetRequest {
    type V = BondPortSetRequestView;

    closed spec fn view(&self) -> BondPortSetRequestView {
        BondPortSetRequestView { request: self.request@, settings: self.info_port_data@ }
    }
}

impl BondPortSetRequest {
    /// The request `request` with no setting of a bonding port yet.
    pub fn new(request: LinkSetRequest) -> (port: BondPortSetRequest)
        ensures
            port@ == (BondPortSetRequestView { request: request@, settings: Seq::empty() }),
    {
        BondPortSetRequest { request, info_port_data: Vec::new() }
    }

    /// Ends the building: consumes the request and gives the netlink
    /// message to dispatch. The info block of a bonding port is added
    /// behind the attributes of the link-set request: the kind marker, and
    /// behind it the settings, unless none was made.
    pub fn execute(self) -> (msg: NetlinkMessage<RtnlMessage>)
        ensures
            request_model(msg) == self@.finished().request(),
    {
        self.into_request().execute()
    }

    /// The link-set request that this one ends as.
    pub fn into_request(self) -> (request: LinkSetRequest)
        ensures
            request@ == self@.finished(),
    {
        let BondPortSetRequest { request, info_port_data } = self;
        let data = if info_port_data.len() == 0 {
            None
        } else {
            Some(PortData::BondPort(info_port_data))
        };
        request.link_info(PortKind::Bond, data)
    }

    /// Sets the link up.
    pub fn up(self) -> (port: BondPortSetRequest)
        ensures
            port@ == (BondPortSetRequestView {
                request: self@.request.with_flag(IFF_UP, true),
                settings: self@.settings,
            }),
            port@ == self@.apply(PortSetter::Up),
    {
        BondPortSetRequest { request: self.request.up(), info_port_data: self.info_port_data }
    }

    /// Sets the transmit queue that the bond maps to the port.
    pub fn queue_id(self, queue_id: u16) -> (port: BondPortSetRequest)
        ensures
            port@ == self@.push(BondPortAttr::QueueId(queue_id)),
            port@ == self@.apply(PortSetter::QueueId(queue_id)),
    {
        let mut port = self;
        port.info_port_data.push(BondPortAttr::QueueId(queue_id));
        port
    }

    /// Sets the priority of the port.
    pub fn prio(self, prio: i32) -> (port: BondPortSetRequest)
        ensures
            port@ == self@.push(BondPortAttr::Prio(prio)),
            port@ == self@.apply(PortSetter::Prio(prio)),
    {
        let mut port = self;
        port.info_port_data.push(BondPortAttr::Prio(prio));
        port
    }

    /// Sets the count of link failures of the port.
    pub fn linkfailurecount(self, linkfailurecount: u32) -> (port: BondPortSetRequest)
        ensures
            port@ == self@.push(BondPortAttr::LinkFailureCount(linkfailurecount)),
            port@ == self@.apply(PortSetter::LinkFailureCount(linkfailurecount)),
    {
        let mut port = self;
        port.info_port_data.push(BondPortAttr::LinkFailureCount(linkfailurecount));
        port
    }

    /// Names the link the request is about.
    pub fn match_name(self, name: String) -> (port: BondPortSetRequest)
        ensures
            port@ == (BondPortSetRequestView {
                request: self@.request.push(LinkAttrView::IfName(name@)),
                settings: self@.settings,
            }),
            port@ == self@.apply(PortSetter::MatchName(name@)),
    {
        BondPortSetRequest {
            request: self.request.name(name),
            info_port_data: self.info_port_data,
        }
    }

    /// The plain request that carries `msg`: a new-link message under the
    /// header flags for a request with acknowledgment.
    pub fn generate_netlink_message(msg: LinkMessage) -> (ret: NetlinkMessage<RtnlMessage>)
        ensures
            request_model(ret) == RequestView::new_link(NLM_F_REQUEST | NLM_F_ACK, msg@),
    {
        request_to_wire(&msg, NLM_F_REQUEST | NLM_F_ACK)
    }

    /// Whether `message` is about a bonding port: it has a settings entry,
    /// and the first one, in reading order, holds the settings of a bonding
    /// port.
    pub fn is_bond_port(message: &LinkMessage) -> (found: bool)
        ensures
            found == message@.is_bond_port(),
    {
        let mut i: usize = 0;
        while i < message.nlas.len()
            invariant
                i <= message.nlas.len(),
                forall|a: int, b: int| a < i ==> !#[trigger] message@.port_data_at(a, b),
            decreases message.nlas.len() - i,
        {
            if let LinkAttr::Info(block) = &message.nlas[i] {
                let mut j: usize = 0;
                while j < block.len()
                    invariant
                        i < message.nlas.len(),
                        message.nlas[i as int] == LinkAttr::Info(*block),
                        j <= block.len(),
                        forall|a: int, b: int| a < i ==> !#[trigger] message@.port_data_at(a, b),
                        forall|b: int| b < j ==> !#[trigger] message@.port_data_at(i as int, b),
                    decreases block.len() - j,
                {
                    if let LinkInfo::PortData(data) = &block[j] {
                        let found = match data {
                            PortData::BondPort(_) => true,
                            PortData::Other(_) => false,
                        };
                        proof {
                            let view = message@;
                            assert(view.port_data_at(i as int, j as int));
                            assert(view.first_port_data_at(i as int, j as int));
                            assert(view.port_data(i as int, j as int) == data@);
                            assert forall|a: int, b: int| #[trigger]
                                view.first_port_data_at(a, b) implies a == i && b == j by {
                                assert(view.port_data_at(a, b));
                            }
                        }
                        return found;
                    }
                    j += 1;
                }
            }
            i += 1;
        }
        false
    }

    /// Adds the info block of a port of kind `portkind` behind the
    /// attributes of the link-set request: the kind marker first, then the
    /// settings entry if `portdata` holds one. The settings made on this
    /// request stay as they are.
    pub fn port_link_info(&mut self, portkind: PortKind, portdata: Option<PortData>)
        ensures
            final(self)@ == (BondPortSetRequestView {
                request: old(self)@.request.push(
                    LinkAttrView::Info(port_info_block(portkind@, data_view(portdata))),
                ),
                settings: old(self)@.settings,
            }),
    {
        let block = port_info(portkind, portdata);
        self.request.message_mut().push(LinkAttr::Info(block));
    }
}

/// The info block of a bonding port is the last attribute of the finished
/// request, behind every attribute the request had. In it the kind marker
/// stands first, strictly before the settings; where no setting was made
/// the block is the kind marker alone, with no settings entry.
pub proof fn lemma_finished_block(port: BondPortSetRequestView)
    ensures
        port.finished().message.nlas == port.request.message.nlas.push(
            LinkAttrView::Info(bond_port_block(port.settings)),
        ),
        kind_precedes_data(bond_port_block(port.settings)),
        bond_port_block(port.settings)[0] == LinkInfoView::PortKind(PortKindView::Bond),
        has_port_data(bond_port_block(port.settings)) <==> port.settings.len() > 0,
        port.finished().message.header == port.request.message.header,
        port.finished().replace == port.request.replace,
{
    lemma_bond_port_block(port.settings);
    if port.settings.len() > 0 {
        assert(bond_port_block(port.settings)[1] is PortData);
    }
}

/// Setter calls on a bonding-port request keep the order they are made in.
/// The finished request has the attributes it had before, then the names
/// that the calls added, call by call, and last the info block; the block
/// holds the settings made before, then those that the calls made, call by
/// call.
pub proof fn lemma_port_setters_keep_call_order(
    port: BondPortSetRequestView,
    calls: Seq<PortSetter>,
)
    ensures
        port.apply_all(calls).request.message.nlas == port.request.message.nlas
            + PortSetter::attributes(calls),
        port.apply_all(calls).settings == port.settings + PortSetter::settings(calls),
        port.apply_all(calls).finished().message.nlas == (port.request.message.nlas
            + PortSetter::attributes(calls)).push(
            LinkAttrView::Info(bond_port_block(port.settings + PortSetter::settings(calls))),
        ),
    decreases calls.len(),
{
    if calls.len() == 0 {
        assert(port.request.message.nlas + PortSetter::attributes(calls)
            =~= port.request.message.nlas);
        assert(port.settings + PortSetter::settings(calls) =~= port.settings);
    } else {
        lemma_port_setters_keep_call_order(port, calls.drop_last());
        let before = port.apply_all(calls.drop_last());
        let names = PortSetter::attributes(calls.drop_last());
        let settings = PortSetter::settings(calls.drop_last());
        match calls.last().attribute() {
            Some(attr) => {
                assert((port.request.message.nlas + names).push(attr)
                    =~= port.request.message.nlas + names.push(attr));
            },
            None => {},
        }
        match calls.last().setting() {
            Some(setting) => {
                assert((port.settings + settings).push(setting) =~= port.settings + settings.push(
                    setting,
                ));
            },
            None => {},
        }
    }
}

} // verus!
