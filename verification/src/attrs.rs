//! The attributes a link-set request can carry: the link-level attributes,
//! the nested info block that classifies a link as a port of a master
//! device, and the settings of a bonding port.

use vstd::prelude::*;

verus! {

/// One setting of a link that is a port of a bond. A setting that is not
/// sent keeps the value the kernel has for it.
#[derive(Clone, Copy, Debug, PartialEq, Eq, Structural)]
pub enum BondPortAttr {
    /// The transmit queue the bond maps to this port.
    QueueId(u16),
    /// The priority of this port when the bond picks its active port.
    Prio(i32),
    /// The number of link failures counted for this port.
    LinkFailureCount(u32),
}

/// The kind of master device a port is enslaved to.
#[derive(Clone, Debug, PartialEq, Eq)]
pub enum PortKind {
    /// A bond.
    Bond,
    /// A kind known only by its name.
    Other(String),
}

/// The mathematical value of a [`PortKind`].
pub enum PortKindView {
    Bond,
    Other(Seq<char>),
}

/// The settings of a port, in the form its kind prescribes.
#[derive(Clone, Debug, PartialEq, Eq)]
pub enum PortData {
    /// The settings of a bonding port, in the order they are sent.
    BondPort(Vec<BondPortAttr>),
    /// The raw payload of a kind known only by its name.
    Other(Vec<u8>),
}

/// The mathematical value of a [`PortData`].
pub enum PortDataView {
    BondPort(Seq<BondPortAttr>),
    Other(Seq<u8>),
}

/// One entry of the nested info block of a link.
#[derive(Clone, Debug, PartialEq, Eq)]
pub enum LinkInfo {
    /// The marker that says what kind of port the link is.
    PortKind(PortKind),
    /// The settings that belong to that kind.
    PortData(PortData),
}

/// The mathematical value of a [`LinkInfo`].
pub enum LinkInfoView {
    PortKind(PortKindView),
    PortData(PortDataView),
}

/// One link-level attribute of a request.
#[derive(Clone, Debug, PartialEq, Eq)]
pub enum LinkAttr {
    /// The name of the link.
    IfName(String),
    /// The maximum transmission unit.
    Mtu(u32),
    /// The hardware address.
    Address(Vec<u8>),
    /// The index of the master device; zero detaches the link.
    Master(u32),
    /// The process whose network namespace the link moves to.
    NetNsPid(u32),
    /// The file descriptor of the network namespace the link moves to.
    NetNsFd(i32),
    /// The nested info block.
    Info(Vec<LinkInfo>),
}

/// The mathematical value of a [`LinkAttr`].
pub enum LinkAttrView {
    IfName(Seq<char>),
    Mtu(u32),
    Address(Seq<u8>),
    Master(u32),
    NetNsPid(u32),
    NetNsFd(i32),
    Info(Seq<LinkInfoView>),
}

impl View for PortKind {
    type V = PortKindView;

    open spec fn view(&self) -> PortKindView {
        match self {
            PortKind::Bond => PortKindView::Bond,
            PortKind::Other(name) => PortKindView::Other(name@),
        }
    }
}

impl View for PortData {
    type V = PortDataView;

    open spec fn view(&self) -> PortDataView {
        match self {
            PortData::BondPort(attrs) => PortDataView::BondPort(attrs@),
            PortData::Other(bytes) => PortDataView::Other(bytes@),
        }
    }
}

impl View for LinkInfo {
    type V = LinkInfoView;

    open spec fn view(&self) -> LinkInfoView {
        match self {
            LinkInfo::PortKind(kind) => LinkInfoView::PortKind(kind@),
            LinkInfo::PortData(data) => LinkInfoView::PortData(data@),
        }
    }
}

impl View for LinkAttr {
    type V = LinkAttrView;

    open spec fn view(&self) -> LinkAttrView {
        match self {
            LinkAttr::IfName(name) => LinkAttrView::IfName(name@),
            LinkAttr::Mtu(mtu) => LinkAttrView::Mtu(*mtu),
            LinkAttr::Address(bytes) => LinkAttrView::Address(bytes@),
            LinkAttr::Master(index) => LinkAttrView::Master(*index),
            LinkAttr::NetNsPid(pid) => LinkAttrView::NetNsPid(*pid),
            LinkAttr::NetNsFd(fd) => LinkAttrView::NetNsFd(*fd),
            LinkAttr::Info(infos) => LinkAttrView::Info(info_views(infos@)),
        }
    }
}

/// The values of the entries of an info block, in order.
pub open spec fn info_views(infos: Seq<LinkInfo>) -> Seq<LinkInfoView> {
    infos.map_values(|info: LinkInfo| info@)
}

/// The values of a list of attributes, in order.
pub open spec fn attr_views(attrs: Seq<LinkAttr>) -> Seq<LinkAttrView> {
    attrs.map_values(|attr: LinkAttr| attr@)
}

/// The value of the settings entry that `data` holds, if it holds one.
pub open spec fn data_view(data: Option<PortData>) -> Option<PortDataView> {
    match data {
        Some(data) => Some(data@),
        None => None,
    }
}

/// The info block that marks a link as a port of kind `kind`: the kind
/// marker first, then the settings if there are any.
pub open spec fn port_info_block(kind: PortKindView, data: Option<PortDataView>) -> Seq<
    LinkInfoView,
> {
    match data {
        Some(data) => seq![LinkInfoView::PortKind(kind), LinkInfoView::PortData(data)],
        None => seq![LinkInfoView::PortKind(kind)],
    }
}

/// The settings entry of a bonding port: none when no setting was made,
/// since an empty entry is not sent.
pub open spec fn bond_port_data(settings: Seq<BondPortAttr>) -> Option<PortDataView> {
    if settings.len() == 0 {
        None
    } else {
        Some(PortDataView::BondPort(settings))
    }
}

/// The info block of a bonding port with the settings `settings`.
pub open spec fn bond_port_block(settings: Seq<BondPortAttr>) -> Seq<LinkInfoView> {
    port_info_block(PortKindView::Bond, bond_port_data(settings))
}

/// Whether an info block has a kind marker, and every settings entry of it
/// stands behind that marker.
pub open spec fn kind_precedes_data(block: Seq<LinkInfoView>) -> bool {
    exists|k: int|
        0 <= k < block.len() && #[trigger] block[k] is PortKind && forall|d: int|
            0 <= d < block.len() && #[trigger] block[d] is PortData ==> k < d
}

/// Whether an info block has a settings entry.
pub open spec fn has_port_data(block: Seq<LinkInfoView>) -> bool {
    exists|d: int| 0 <= d < block.len() && #[trigger] block[d] is PortData
}

/// An info block made by [`port_info_block`] starts with its kind marker;
/// its settings entry, where it has one, is the second and last entry.
pub proof fn lemma_port_info_block_order(kind: PortKindView, data: Option<PortDataView>)
    ensures
        kind_precedes_data(port_info_block(kind, data)),
        port_info_block(kind, data)[0] == LinkInfoView::PortKind(kind),
        has_port_data(port_info_block(kind, data)) <==> data is Some,
        data is Some ==> port_info_block(kind, data).len() == 2 && port_info_block(kind, data)[1]
            == LinkInfoView::PortData(data->0),
        data is None ==> port_info_block(kind, data).len() == 1,
{
    let block = port_info_block(kind, data);
    assert(block[0] is PortKind);
    if data is Some {
        assert(block[1] is PortData);
    }
}

/// The info block of a bonding port puts the kind marker strictly before the
/// settings, and has no settings entry at all when no setting was made.
pub proof fn lemma_bond_port_block(settings: Seq<BondPortAttr>)
    ensures
        kind_precedes_data(bond_port_block(settings)),
        settings.len() == 0 ==> bond_port_block(settings) == seq![
            LinkInfoView::PortKind(PortKindView::Bond),
        ] && !has_port_data(bond_port_block(settings)),
        settings.len() > 0 ==> bond_port_block(settings) == seq![
            LinkInfoView::PortKind(PortKindView::Bond),
            LinkInfoView::PortData(PortDataView::BondPort(settings)),
        ],
{
    lemma_port_info_block_order(PortKindView::Bond, bond_port_data(settings));
}

} // verus!
