//! The link message a request carries: the fixed header of the link and the
//! attributes in the order they were added.

use vstd::prelude::*;
use crate::attrs::{attr_views, LinkAttr, LinkAttrView, PortDataView};
use crate::flags::{lower, lowered, raise, raised};

verus! {

/// The fixed header of a link message.
#[derive(Clone, Copy, Debug, PartialEq, Eq, Structural)]
pub struct LinkHeader {
    /// The address family of the link; zero where none is meant.
    pub interface_family: u8,
    /// The index of the link the message is about.
    pub index: u32,
    /// The hardware type of the link; zero where none is meant.
    pub link_layer_type: u16,
    /// The device flags.
    pub flags: u32,
    /// The device flags that the kernel is to apply from `flags`.
    pub change_mask: u32,
}

/// The kernel's view of one link: the header and the attributes.
#[derive(Clone, Debug, PartialEq, Eq)]
pub struct LinkMessage {
    pub header: LinkHeader,
    pub nlas: Vec<LinkAttr>,
}

/// The mathematical value of a [`LinkMessage`].
pub struct LinkMessageView {
    pub header: LinkHeader,
    pub nlas: Seq<LinkAttrView>,
}

impl View for LinkMessage {
    type V = LinkMessageView;

    open spec fn view(&self) -> LinkMessageView {
        LinkMessageView { header: self.header, nlas: attr_views(self.nlas@) }
    }
}

impl LinkMessageView {
    /// The message about link `index` that changes nothing.
    pub open spec fn empty(index: u32) -> LinkMessageView {
        LinkMessageView {
            header: LinkHeader {
                interface_family: 0,
                index,
                link_layer_type: 0,
                flags: 0,
                change_mask: 0,
            },
            nlas: Seq::empty(),
        }
    }

    /// This message with `attr` added behind the attributes it has.
    pub open spec fn push(self, attr: LinkAttrView) -> LinkMessageView {
        LinkMessageView { header: self.header, nlas: self.nlas.push(attr) }
    }

    /// This message with the device flag `bit` set, or cleared, and marked
    /// in the change mask.
    pub open spec fn with_flag(self, bit: u32, on: bool) -> LinkMessageView {
        LinkMessageView {
            header: LinkHeader {
                interface_family: self.header.interface_family,
                index: self.header.index,
                link_layer_type: self.header.link_layer_type,
                flags: if on {
                    raised(self.header.flags, bit)
                } else {
                    lowered(self.header.flags, bit)
                },
                change_mask: raised(self.header.change_mask, bit),
            },
            nlas: self.nlas,
        }
    }

    /// Whether entry `j` of attribute `i` is the settings entry of an info
    /// block.
    pub open spec fn port_data_at(self, i: int, j: int) -> bool {
        &&& 0 <= i < self.nlas.len()
        &&& self.nlas[i] matches LinkAttrView::Info(block)
        &&& 0 <= j < block.len()
        &&& block[j] is PortData
    }

    /// Whether the place `(i, j)` comes before `(a, b)` in reading order, or
    /// is the same place.
    pub open spec fn not_behind(i: int, j: int, a: int, b: int) -> bool {
        i < a || (i == a && j <= b)
    }

    /// Whether `(i, j)` is the first settings entry of the message, in
    /// reading order.
    pub open spec fn first_port_data_at(self, i: int, j: int) -> bool {
        &&& self.port_data_at(i, j)
        &&& forall|a: int, b: int| #[trigger]
            self.port_data_at(a, b) ==> Self::not_behind(i, j, a, b)
    }

    /// The settings entry at `(i, j)`.
    pub open spec fn port_data(self, i: int, j: int) -> PortDataView
        recommends
            self.port_data_at(i, j),
    {
        self.nlas[i]->Info_0[j]->PortData_0
    }

    /// Whether the message has a settings entry, and the first one holds the
    /// settings of a bonding port.
    pub open spec fn is_bond_port(self) -> bool {
        exists|i: int, j: int| #[trigger]
            self.first_port_data_at(i, j) && self.port_data(i, j) is BondPort
    }
}

impl LinkMessage {
    /// The message about link `index` that changes nothing.
    pub fn new(index: u32) -> (message: LinkMessage)
        ensures
            message@ == LinkMessageView::empty(index),
    {
        let message = LinkMessage {
            header: LinkHeader {
                interface_family: 0,
                index,
                link_layer_type: 0,
                flags: 0,
                change_mask: 0,
            },
            nlas: Vec::new(),
        };
        assert(message@.nlas =~= Seq::empty());
        message
    }

    /// Adds `attr` behind the attributes of the message.
    pub fn push(&mut self, attr: LinkAttr)
        ensures
            final(self)@ == old(self)@.push(attr@),
    {
        self.nlas.push(attr);
        assert(self@.nlas =~= old(self)@.nlas.push(attr@));
    }

    /// Sets the device flag `bit`, or clears it, and marks it in the change
    /// mask.
    pub fn set_flag(&mut self, bit: u32, on: bool)
        ensures
            final(self)@ == old(self)@.with_flag(bit, on),
    {
        if on {
            self.header.flags = raise(self.header.flags, bit);
        } else {
            self.header.flags = lower(self.header.flags, bit);
        }
        self.header.change_mask = raise(self.header.change_mask, bit);
    }
}

} // verus!
