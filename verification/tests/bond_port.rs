use netlink_packet_core::{NetlinkMessage, NetlinkPayload};
use netlink_packet_route::link::nlas::{Info, InfoBondPort, InfoPortData, InfoPortKind, Nla};
use netlink_packet_route::RtnlMessage;
use rtnl_link_set::{
    BondPortAttr, BondPortSetRequest, LinkAttr, LinkHeader, LinkInfo, LinkMessage, LinkSetRequest,
    PortData, PortKind,
};

fn port_header(index: u32, flags: u32, change_mask: u32) -> LinkHeader {
    LinkHeader { interface_family: 0, index, link_layer_type: 0, flags, change_mask }
}

fn finished(port: BondPortSetRequest) -> LinkMessage {
    let mut request = port.into_request();
    request.message_mut().clone()
}

fn link_of(msg: &NetlinkMessage<RtnlMessage>) -> netlink_packet_route::LinkMessage {
    match &msg.payload {
        NetlinkPayload::InnerMessage(RtnlMessage::NewLink(link)) => link.clone(),
        other => panic!("not a new-link message: {:?}", other),
    }
}

fn round_trip(msg: &NetlinkMessage<RtnlMessage>) -> NetlinkMessage<RtnlMessage> {
    let mut msg = msg.clone();
    msg.finalize();
    let mut buffer = vec![0u8; msg.buffer_len()];
    msg.serialize(&mut buffer);
    let parsed = NetlinkMessage::<RtnlMessage>::deserialize(&buffer).unwrap();
    assert_eq!(parsed, msg);
    parsed
}

fn message_with(nlas: Vec<LinkAttr>) -> LinkMessage {
    LinkMessage { header: port_header(1, 0, 0), nlas }
}

#[test]
fn bond_port_scenario() {
    let msg = LinkSetRequest::new(9)
        .name("dummy0".to_string())
        .bondport("dummy0".to_string())
        .queue_id(1)
        .prio(6)
        .up()
        .execute();

    assert_eq!(
        msg.header.flags,
        netlink_packet_core::NLM_F_REQUEST
            | netlink_packet_core::NLM_F_ACK
            | netlink_packet_core::NLM_F_CREATE
            | netlink_packet_core::NLM_F_EXCL
    );
    let link = link_of(&msg);
    assert_eq!(link.header.index, 9);
    assert_eq!(link.header.flags & netlink_packet_route::IFF_UP, netlink_packet_route::IFF_UP);
    assert_eq!(
        link.header.change_mask & netlink_packet_route::IFF_UP,
        netlink_packet_route::IFF_UP
    );
    let block = Nla::Info(vec![
        Info::PortKind(InfoPortKind::Bond),
        Info::PortData(InfoPortData::BondPort(vec![
            InfoBondPort::QueueId(1),
            InfoBondPort::Prio(6),
        ])),
    ]);
    assert!(link.nlas.contains(&Nla::IfName("dummy0".to_string())));
    assert!(link.nlas.contains(&block));
    // `name` and `bondport` each name the link, and the builder keeps both.
    assert_eq!(
        link.nlas,
        vec![Nla::IfName("dummy0".to_string()), Nla::IfName("dummy0".to_string()), block]
    );
    assert_eq!(link_of(&round_trip(&msg)), link);
}

#[test]
fn bond_port_scenario_without_the_first_name() {
    let msg = LinkSetRequest::new(9)
        .bondport("dummy0".to_string())
        .queue_id(1)
        .prio(6)
        .up()
        .execute();
    assert_eq!(msg.header.flags, 0x605);
    let link = link_of(&msg);
    assert_eq!(link.header.flags, 0x1);
    assert_eq!(link.header.change_mask, 0x1);
    assert_eq!(
        link.nlas,
        vec![
            Nla::IfName("dummy0".to_string()),
            Nla::Info(vec![
                Info::PortKind(InfoPortKind::Bond),
                Info::PortData(InfoPortData::BondPort(vec![
                    InfoBondPort::QueueId(1),
                    InfoBondPort::Prio(6),
                ])),
            ]),
        ]
    );
}

#[test]
fn example_call_chain() {
    let msg = LinkSetRequest::new(9)
        .bondport("dummy0".to_string())
        .match_name("dummy0".to_string())
        .queue_id(1)
        .prio(6)
        .up()
        .execute();
    let link = link_of(&msg);
    assert_eq!(link.nlas.len(), 3);
    assert_eq!(link.nlas[0], Nla::IfName("dummy0".to_string()));
    assert_eq!(link.nlas[1], Nla::IfName("dummy0".to_string()));
    assert_eq!(
        link.nlas[2],
        Nla::Info(vec![
            Info::PortKind(InfoPortKind::Bond),
            Info::PortData(InfoPortData::BondPort(vec![
                InfoBondPort::QueueId(1),
                InfoBondPort::Prio(6),
            ])),
        ])
    );
}

#[test]
fn no_setting_gives_the_kind_alone() {
    let port = LinkSetRequest::new(9).bondport("dummy0".to_string());
    assert_eq!(
        finished(port).nlas,
        vec![
            LinkAttr::IfName("dummy0".to_string()),
            LinkAttr::Info(vec![LinkInfo::PortKind(PortKind::Bond)]),
        ]
    );
}

#[test]
fn kind_only_block_survives_encoding_and_decoding() {
    let msg = LinkSetRequest::new(9).bondport("dummy0".to_string()).up().execute();
    let decoded = link_of(&round_trip(&msg));
    assert_eq!(
        decoded.nlas,
        vec![
            Nla::IfName("dummy0".to_string()),
            Nla::Info(vec![Info::PortKind(InfoPortKind::Bond)]),
        ]
    );
}

#[test]
fn kind_stands_before_the_data_after_decoding() {
    let msg = LinkSetRequest::new(9)
        .bondport("dummy0".to_string())
        .linkfailurecount(3)
        .execute();
    let decoded = link_of(&round_trip(&msg));
    match &decoded.nlas[1] {
        Nla::Info(block) => {
            assert_eq!(block.len(), 2);
            assert_eq!(block[0], Info::PortKind(InfoPortKind::Bond));
            assert_eq!(
                block[1],
                Info::PortData(InfoPortData::BondPort(vec![InfoBondPort::LinkFailureCount(3)]))
            );
        }
        other => panic!("not an info block: {:?}", other),
    }
}

#[test]
fn settings_keep_call_order() {
    let port = LinkSetRequest::new(2)
        .bondport("swp0".to_string())
        .prio(-4)
        .linkfailurecount(7)
        .queue_id(65535);
    assert_eq!(
        finished(port).nlas[1],
        LinkAttr::Info(vec![
            LinkInfo::PortKind(PortKind::Bond),
            LinkInfo::PortData(PortData::BondPort(vec![
                BondPortAttr::Prio(-4),
                BondPortAttr::LinkFailureCount(7),
                BondPortAttr::QueueId(65535),
            ])),
        ])
    );
}

#[test]
fn repeated_settings_are_all_sent() {
    let msg = LinkSetRequest::new(2)
        .bondport("swp0".to_string())
        .queue_id(1)
        .queue_id(2)
        .queue_id(1)
        .execute();
    assert_eq!(
        link_of(&msg).nlas[1],
        Nla::Info(vec![
            Info::PortKind(InfoPortKind::Bond),
            Info::PortData(InfoPortData::BondPort(vec![
                InfoBondPort::QueueId(1),
                InfoBondPort::QueueId(2),
                InfoBondPort::QueueId(1),
            ])),
        ])
    );
}

#[test]
fn info_block_is_the_last_attribute() {
    let port = LinkSetRequest::new(2)
        .mtu(1500)
        .bondport("swp0".to_string())
        .queue_id(1)
        .match_name("swp1".to_string());
    let nlas = finished(port).nlas;
    assert_eq!(nlas.len(), 4);
    assert_eq!(nlas[0], LinkAttr::Mtu(1500));
    assert_eq!(nlas[1], LinkAttr::IfName("swp0".to_string()));
    assert_eq!(nlas[2], LinkAttr::IfName("swp1".to_string()));
    assert_eq!(
        nlas[3],
        LinkAttr::Info(vec![
            LinkInfo::PortKind(PortKind::Bond),
            LinkInfo::PortData(PortData::BondPort(vec![BondPortAttr::QueueId(1)])),
        ])
    );
}

#[test]
fn up_on_a_bond_port_marks_the_flag() {
    let port = LinkSetRequest::new(2).bondport("swp0".to_string()).up().up();
    assert_eq!(finished(port).header, port_header(2, 0x1, 0x1));
}

#[test]
fn replace_carries_over_to_the_bond_port() {
    let msg = LinkSetRequest::new(2).replace().bondport("swp0".to_string()).prio(1).execute();
    assert_eq!(msg.header.flags, 0x505);
}

#[test]
fn new_bond_port_request_has_no_setting() {
    let port = BondPortSetRequest::new(LinkSetRequest::new(3).mtu(1500));
    assert_eq!(
        finished(port).nlas,
        vec![LinkAttr::Mtu(1500), LinkAttr::Info(vec![LinkInfo::PortKind(PortKind::Bond)])]
    );
}

#[test]
fn port_link_info_adds_a_block_and_keeps_the_settings() {
    let mut port = LinkSetRequest::new(3).bondport("swp0".to_string()).queue_id(4);
    port.port_link_info(PortKind::Other("team".to_string()), Some(PortData::Other(vec![1, 2])));
    port.port_link_info(PortKind::Bond, None);
    assert_eq!(
        finished(port).nlas,
        vec![
            LinkAttr::IfName("swp0".to_string()),
            LinkAttr::Info(vec![
                LinkInfo::PortKind(PortKind::Other("team".to_string())),
                LinkInfo::PortData(PortData::Other(vec![1, 2])),
            ]),
            LinkAttr::Info(vec![LinkInfo::PortKind(PortKind::Bond)]),
            LinkAttr::Info(vec![
                LinkInfo::PortKind(PortKind::Bond),
                LinkInfo::PortData(PortData::BondPort(vec![BondPortAttr::QueueId(4)])),
            ]),
        ]
    );
}

#[test]
fn other_kinds_reach_the_netlink_message() {
    let mut port = LinkSetRequest::new(3).bondport("swp0".to_string());
    port.port_link_info(PortKind::Other("team".to_string()), Some(PortData::Other(vec![9, 8])));
    let link = link_of(&port.execute());
    assert_eq!(
        link.nlas[1],
        Nla::Info(vec![
            Info::PortKind(InfoPortKind::Other("team".to_string())),
            Info::PortData(InfoPortData::Other(vec![9, 8])),
        ])
    );
}

#[test]
fn generate_netlink_message_asks_for_an_acknowledgment() {
    let message = LinkMessage {
        header: port_header(7, 0x100, 0x101),
        nlas: vec![LinkAttr::Mtu(1500), LinkAttr::NetNsPid(1)],
    };
    let msg = BondPortSetRequest::generate_netlink_message(message);
    assert_eq!(msg.header.flags, 0x5);
    assert_eq!(
        msg.header.flags,
        netlink_packet_core::NLM_F_REQUEST | netlink_packet_core::NLM_F_ACK
    );
    let link = link_of(&msg);
    assert_eq!(link.header.index, 7);
    assert_eq!(link.header.flags, 0x100);
    assert_eq!(link.header.change_mask, 0x101);
    assert_eq!(link.nlas, vec![Nla::Mtu(1500), Nla::NetNsPid(1)]);
}

#[test]
fn message_without_info_is_no_bond_port() {
    assert!(!BondPortSetRequest::is_bond_port(&message_with(vec![])));
    assert!(!BondPortSetRequest::is_bond_port(&message_with(vec![
        LinkAttr::Mtu(1500),
        LinkAttr::IfName("bond0".to_string()),
    ])));
}

#[test]
fn kind_alone_is_no_bond_port() {
    assert!(!BondPortSetRequest::is_bond_port(&message_with(vec![
        LinkAttr::Info(vec![]),
        LinkAttr::Info(vec![LinkInfo::PortKind(PortKind::Bond)]),
    ])));
}

#[test]
fn bond_port_data_makes_a_bond_port() {
    assert!(BondPortSetRequest::is_bond_port(&message_with(vec![
        LinkAttr::Mtu(1500),
        LinkAttr::Info(vec![
            LinkInfo::PortKind(PortKind::Bond),
            LinkInfo::PortData(PortData::BondPort(vec![])),
        ]),
    ])));
}

#[test]
fn first_port_data_decides() {
    let bond = LinkInfo::PortData(PortData::BondPort(vec![BondPortAttr::Prio(1)]));
    let other = LinkInfo::PortData(PortData::Other(vec![1]));
    assert!(!BondPortSetRequest::is_bond_port(&message_with(vec![LinkAttr::Info(vec![
        other.clone(),
        bond.clone(),
    ])])));
    assert!(BondPortSetRequest::is_bond_port(&message_with(vec![LinkAttr::Info(vec![
        bond.clone(),
        other.clone(),
    ])])));
    assert!(!BondPortSetRequest::is_bond_port(&message_with(vec![
        LinkAttr::Info(vec![LinkInfo::PortKind(PortKind::Bond), other.clone()]),
        LinkAttr::Info(vec![bond.clone()]),
    ])));
    assert!(BondPortSetRequest::is_bond_port(&message_with(vec![
        LinkAttr::Info(vec![LinkInfo::PortKind(PortKind::Bond)]),
        LinkAttr::Master(1),
        LinkAttr::Info(vec![LinkInfo::PortKind(PortKind::Bond), bond.clone()]),
        LinkAttr::Info(vec![other.clone()]),
    ])));
}

#[test]
fn finished_bond_port_request_is_a_bond_port() {
    let with_setting = LinkSetRequest::new(1).bondport("swp0".to_string()).prio(2);
    assert!(BondPortSetRequest::is_bond_port(&finished(with_setting)));
    let without = LinkSetRequest::new(1).bondport("swp0".to_string());
    assert!(!BondPortSetRequest::is_bond_port(&finished(without)));
}
