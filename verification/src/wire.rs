//! The way from a link message of this library to a netlink message of the
//! `netlink-packet-route` and `netlink-packet-core` crates, and from a reply
//! of theirs to the error code it carries.
//!
//! The values of those crates are opaque to the verifier. What one of them
//! holds is named by a function without a body, and the constructors are
//! reached through small functions whose contracts are believed, not proved.

use vstd::prelude::*;
use netlink_packet_core::{NetlinkMessage, NetlinkPayload};
use netlink_packet_route::link::nlas::{Info, InfoBondPort, InfoPortData, InfoPortKind, Nla};
use netlink_packet_route::RtnlMessage;
use crate::attrs::{
    attr_views, info_views, BondPortAttr, LinkAttr, LinkAttrView, LinkInfo, LinkInfoView, PortData,
    PortDataView, PortKind, PortKindView,
};
use crate::message::{LinkHeader, LinkMessage, LinkMessageView};

verus! {

/// A setting of a bonding port, as `netlink-packet-route` holds it.
#[verifier::external_type_specification]
#[verifier::external_body]
pub struct ExInfoBondPort(InfoBondPort);

/// An entry of an info block, as `netlink-packet-route` holds it.
#[verifier::external_type_specification]
#[verifier::external_body]
pub struct ExInfo(Info);

/// A link-level attribute, as `netlink-packet-route` holds it.
#[verifier::external_type_specification]
#[verifier::external_body]
pub struct ExNla(Nla);

/// A route-netlink message of `netlink-packet-route`.
#[verifier::external_type_specification]
#[verifier::external_body]
pub struct ExRtnlMessage(RtnlMessage);

/// A netlink message of `netlink-packet-core`: a header and a payload.
#[verifier::external_type_specification]
#[verifier::external_body]
#[verifier::reject_recursive_types(I)]
pub struct ExNetlinkMessage<I>(NetlinkMessage<I>);

/// What a route-netlink message is for, as far as this library tells.
pub enum RequestKind {
    /// The message creates a link or changes one.
    NewLink,
    /// The message is for something else.
    Other,
}

/// What a request holds: its netlink header, what it is for, and its link
/// message.
pub struct RequestView {
    /// The length of the encoded message, zero until the message is
    /// finalized.
    pub length: u32,
    /// The number of the message type, zero until the message is finalized.
    pub message_type: u16,
    /// The flags of the netlink header.
    pub flags: u16,
    /// The sequence number, zero until the connection gives one.
    pub sequence_number: u32,
    /// The port number, zero until the connection gives one.
    pub port_number: u32,
    /// What the message is for.
    pub kind: RequestKind,
    /// The link message.
    pub message: LinkMessageView,
}

impl RequestView {
    /// The new-link request that carries `message` under the header flags
    /// `flags`, as it is before the connection numbers and finalizes it.
    pub open spec fn new_link(flags: u16, message: LinkMessageView) -> RequestView {
        RequestView {
            length: 0,
            message_type: 0,
            flags,
            sequence_number: 0,
            port_number: 0,
            kind: RequestKind::NewLink,
            message,
        }
    }
}

/// The setting that an `InfoBondPort` holds.
pub uninterp spec fn bond_port_model(attr: InfoBondPort) -> BondPortAttr;

/// The entry that an `Info` holds.
pub uninterp spec fn info_model(info: Info) -> LinkInfoView;

/// The attribute that an `Nla` holds.
pub uninterp spec fn nla_model(nla: Nla) -> LinkAttrView;

/// The netlink header that a netlink message holds, whether its payload is
/// a new-link message, and the link message of that payload: the header
/// fields of the link and its attributes, in order.
pub uninterp spec fn request_model(msg: NetlinkMessage<RtnlMessage>) -> RequestView;

/// The error code that a netlink message carries: that of its error payload,
/// zero where the payload holds none, and nothing where the payload is no
/// error payload.
pub uninterp spec fn reply_code(msg: NetlinkMessage<RtnlMessage>) -> Option<i32>;

/// The settings that a list of `InfoBondPort` holds, in order.
pub open spec fn bond_port_models(attrs: Seq<InfoBondPort>) -> Seq<BondPortAttr> {
    attrs.map_values(|attr: InfoBondPort| bond_port_model(attr))
}

/// The entries that a list of `Info` holds, in order.
pub open spec fn info_models(infos: Seq<Info>) -> Seq<LinkInfoView> {
    infos.map_values(|info: Info| info_model(info))
}

/// The attributes that a list of `Nla` holds, in order.
pub open spec fn nla_models(nlas: Seq<Nla>) -> Seq<LinkAttrView> {
    nlas.map_values(|nla: Nla| nla_model(nla))
}

/// `InfoBondPort::QueueId`: the variant that holds the queue id given.
#[verifier::external_body]
fn wire_queue_id(queue_id: u16) -> (attr: InfoBondPort)
    ensures
        bond_port_model(attr) == BondPortAttr::QueueId(queue_id),
{
    InfoBondPort::QueueId(queue_id)
}

/// `InfoBondPort::Prio`: the variant that holds the priority given.
#[verifier::external_body]
fn wire_prio(prio: i32) -> (attr: InfoBondPort)
    ensures
        bond_port_model(attr) == BondPortAttr::Prio(prio),
{
    InfoBondPort::Prio(prio)
}

/// `InfoBondPort::LinkFailureCount`: the variant that holds the count given.
#[verifier::external_body]
fn wire_link_failure_count(count: u32) -> (attr: InfoBondPort)
    ensures
        bond_port_model(attr) == BondPortAttr::LinkFailureCount(count),
{
    InfoBondPort::LinkFailureCount(count)
}

/// `Info::PortKind` of `InfoPortKind::Bond`: the marker of a bonding port.
#[verifier::external_body]
fn wire_port_kind_bond() -> (info: Info)
    ensures
        info_model(info) == LinkInfoView::PortKind(PortKindView::Bond),
{
    Info::PortKind(InfoPortKind::Bond)
}

/// `Info::PortKind` of `InfoPortKind::Other`: the marker of the kind with
/// the name given.
#[verifier::external_body]
fn wire_port_kind_other(name: &String) -> (info: Info)
    ensures
        info_model(info) == LinkInfoView::PortKind(PortKindView::Other(name@)),
{
    Info::PortKind(InfoPortKind::Other(name.clone()))
}

/// `Info::PortData` of `InfoPortData::BondPort`: the settings entry that
/// holds the settings given, in their order.
#[verifier::external_body]
fn wire_port_data_bond(settings: Vec<InfoBondPort>) -> (info: Info)
    ensures
        info_model(info) == LinkInfoView::PortData(
            PortDataView::BondPort(bond_port_models(settings@)),
        ),
{
    Info::PortData(InfoPortData::BondPort(settings))
}

/// `Info::PortData` of `InfoPortData::Other`: the settings entry that holds
/// the bytes given.
#[verifier::external_body]
fn wire_port_data_other(bytes: &Vec<u8>) -> (info: Info)
    ensures
        info_model(info) == LinkInfoView::PortData(PortDataView::Other(bytes@)),
{
    Info::PortData(InfoPortData::Other(bytes.clone()))
}

/// `Nla::IfName`: the attribute that holds the name given.
#[verifier::external_body]
fn wire_if_name(name: &String) -> (nla: Nla)
    ensures
        nla_model(nla) == LinkAttrView::IfName(name@),
{
    Nla::IfName(name.clone())
}

/// `Nla::Mtu`: the attribute that holds the unit given.
#[verifier::external_body]
fn wire_mtu(mtu: u32) -> (nla: Nla)
    ensures
        nla_model(nla) == LinkAttrView::Mtu(mtu),
{
    Nla::Mtu(mtu)
}

/// `Nla::Address`: the attribute that holds the bytes given.
#[verifier::external_body]
fn wire_address(bytes: &Vec<u8>) -> (nla: Nla)
    ensures
        nla_model(nla) == LinkAttrView::Address(bytes@),
{
    Nla::Address(bytes.clone())
}

/// `Nla::Master`: the attribute that holds the index given.
#[verifier::external_body]
fn wire_master(index: u32) -> (nla: Nla)
    ensures
        nla_model(nla) == LinkAttrView::Master(index),
{
    Nla::Master(index)
}

/// `Nla::NetNsPid`: the attribute that holds the process id given.
#[verifier::external_body]
fn wire_net_ns_pid(pid: u32) -> (nla: Nla)
    ensures
        nla_model(nla) == LinkAttrView::NetNsPid(pid),
{
    Nla::NetNsPid(pid)
}

/// `Nla::NetNsFd`: the attribute that holds the file descriptor given.
#[verifier::external_body]
fn wire_net_ns_fd(fd: i32) -> (nla: Nla)
    ensures
        nla_model(nla) == LinkAttrView::NetNsFd(fd),
{
    Nla::NetNsFd(fd)
}

/// `Nla::Info`: the attribute that holds the info block given, in its
/// order.
#[verifier::external_body]
fn wire_info(infos: Vec<Info>) -> (nla: Nla)
    ensures
        nla_model(nla) == LinkAttrView::Info(info_models(infos@)),
{
    Nla::Info(infos)
}

/// `NetlinkMessage::from` on `RtnlMessage::NewLink` of a `LinkMessage`: a
/// default link message gets the header fields and the attributes given and
/// becomes the payload of a new-link message. The netlink header of that
/// message is the default one, all zero, and gets the flags given.
#[verifier::external_body]
fn wire_new_link(header: LinkHeader, nlas: Vec<Nla>, flags: u16) -> (msg: NetlinkMessage<
    RtnlMessage,
>)
    ensures
        request_model(msg) == RequestView::new_link(
            flags,
            LinkMessageView { header, nlas: nla_models(nlas@) },
        ),
{
    let mut message = netlink_packet_route::LinkMessage::default();
    message.header.interface_family = header.interface_family;
    message.header.index = header.index;
    message.header.link_layer_type = header.link_layer_type;
    message.header.flags = header.flags;
    message.header.change_mask = header.change_mask;
    message.nlas = nlas;
    let mut msg = NetlinkMessage::from(RtnlMessage::NewLink(message));
    msg.header.flags = flags;
    msg
}

/// `ErrorMessage::raw_code` on the payload of a netlink message, where that
/// payload is an error payload.
#[verifier::external_body]
pub(crate) fn wire_error_code(msg: &NetlinkMessage<RtnlMessage>) -> (code: Option<i32>)
    ensures
        code == reply_code(*msg),
{
    match &msg.payload {
        NetlinkPayload::Error(err) => Some(err.raw_code()),
        _ => None,
    }
}

/// Converts the settings of a bonding port, one for one and in order.
pub fn bond_port_to_wire(settings: &Vec<BondPortAttr>) -> (out: Vec<InfoBondPort>)
    ensures
        bond_port_models(out@) == settings@,
{
    let mut out: Vec<InfoBondPort> = Vec::new();
    let mut i: usize = 0;
    while i < settings.len()
        invariant
            i <= settings.len(),
            out.len() == i,
            forall|k: int| 0 <= k < i ==> bond_port_model(#[trigger] out[k]) == settings[k],
        decreases settings.len() - i,
    {
        let attr = match settings[i] {
            BondPortAttr::QueueId(queue_id) => wire_queue_id(queue_id),
            BondPortAttr::Prio(prio) => wire_prio(prio),
            BondPortAttr::LinkFailureCount(count) => wire_link_failure_count(count),
        };
        out.push(attr);
        i += 1;
    }
    assert(bond_port_models(out@) =~= settings@);
    out
}

/// Converts one entry of an info block.
pub fn info_to_wire(info: &LinkInfo) -> (out: Info)
    ensures
        info_model(out) == info@,
{
    match info {
        LinkInfo::PortKind(PortKind::Bond) => wire_port_kind_bond(),
        LinkInfo::PortKind(PortKind::Other(name)) => wire_port_kind_other(name),
        LinkInfo::PortData(PortData::BondPort(settings)) => {
            wire_port_data_bond(bond_port_to_wire(settings))
        },
        LinkInfo::PortData(PortData::Other(bytes)) => wire_port_data_other(bytes),
    }
}

/// Converts an info block, entry by entry and in order.
pub fn infos_to_wire(infos: &Vec<LinkInfo>) -> (out: Vec<Info>)
    ensures
        info_models(out@) == info_views(infos@),
{
    let mut out: Vec<Info> = Vec::new();
    let mut i: usize = 0;
    while i < infos.len()
        invariant
            i <= infos.len(),
            out.len() == i,
            forall|k: int| 0 <= k < i ==> info_model(#[trigger] out[k]) == infos[k]@,
        decreases infos.len() - i,
    {
        out.push(info_to_wire(&infos[i]));
        i += 1;
    }
    assert(info_models(out@) =~= info_views(infos@));
    out
}

/// Converts one link-level attribute.
pub fn attr_to_wire(attr: &LinkAttr) -> (out: Nla)
    ensures
        nla_model(out) == attr@,
{
    match attr {
        LinkAttr::IfName(name) => wire_if_name(name),
        LinkAttr::Mtu(mtu) => wire_mtu(*mtu),
        LinkAttr::Address(bytes) => wire_address(bytes),
        LinkAttr::Master(index) => wire_master(*index),
        LinkAttr::NetNsPid(pid) => wire_net_ns_pid(*pid),
        LinkAttr::NetNsFd(fd) => wire_net_ns_fd(*fd),
        LinkAttr::Info(infos) => wire_info(infos_to_wire(infos)),
    }
}

/// Converts a list of link-level attributes, one for one and in order.
pub fn attrs_to_wire(attrs: &Vec<LinkAttr>) -> (out: Vec<Nla>)
    ensures
        nla_models(out@) == attr_views(attrs@),
{
    let mut out: Vec<Nla> = Vec::new();
    let mut i: usize = 0;
    while i < attrs.len()
        invariant
            i <= attrs.len(),
            out.len() == i,
            forall|k: int| 0 <= k < i ==> nla_model(#[trigger] out[k]) == attrs[k]@,
        decreases attrs.len() - i,
    {
        out.push(attr_to_wire(&attrs[i]));
        i += 1;
    }
    assert(nla_models(out@) =~= attr_views(attrs@));
    out
}

/// The new-link request that carries `message` under the netlink header
/// flags `flags`: the same link header, and the same attributes in the same
/// order.
pub fn request_to_wire(message: &LinkMessage, flags: u16) -> (msg: NetlinkMessage<RtnlMessage>)
    ensures
        request_model(msg) == RequestView::new_link(flags, message@),
{
    wire_new_link(message.header, attrs_to_wire(&message.nlas), flags)
}

} // verus!
