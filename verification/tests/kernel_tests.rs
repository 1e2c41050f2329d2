use aos_core::address::ComponentAddress;
use aos_core::adodb::AdodbState;
use aos_core::error::ContractError;
use aos_core::kernel::{parse_path, query_verify_address, KernelState};
use aos_core::kv::KvStore;
use aos_core::types::{
    AMPCtx, AMPMsg, AMPMsgConfig, AMPPkt, AndrAddr, Coin, CosmosMsg, ReplyOn, SubMsg,
};

fn coin(amount: u128, denom: &str) -> Coin {
    Coin {
        denom: denom.to_string(),
        amount,
    }
}

fn msg(recipient: &str, payload: &[u8], funds: Vec<Coin>) -> AMPMsg {
    AMPMsg::new(
        AndrAddr(recipient.to_string()),
        payload.to_vec(),
        Some(funds),
    )
}

fn packet(origin: &str, previous_sender: &str, id: u64, messages: Vec<AMPMsg>) -> AMPPkt {
    AMPPkt {
        ctx: AMPCtx {
            origin: origin.to_string(),
            previous_sender: previous_sender.to_string(),
            id,
        },
        messages,
    }
}

/// A kernel, a registry that knows the contract `component` (code id 2), the
/// host's contract-info table, and an empty directory.
fn setup() -> (KernelState, AdodbState, KvStore<String, u64>, Vec<ComponentAddress>) {
    let kernel = KernelState::new("owner".to_string(), "kernel".to_string());
    let mut registry = AdodbState::new("owner".to_string());
    registry
        .publish(
            "owner",
            2,
            "splitter".to_string(),
            "1.0.0".to_string(),
            None,
            None,
        )
        .unwrap();
    let mut infos: KvStore<String, u64> = KvStore::new();
    infos.insert("component".to_string(), 2u64);
    (kernel, registry, infos, vec![])
}

#[test]
fn test_sequence_id_rejected() {
    let (kernel, registry, infos, vfs) = setup();

    // A forged sequence id is rejected for a registry-known sender ...
    let pkt = packet("component", "component", 5, vec![msg("receiver", b"hello", vec![])]);
    let res = kernel.handle_amp_packet(&registry, &infos, &vfs, "component", &pkt);
    assert!(res.is_err());

    // ... and for a self-originated one alike.
    let pkt = packet("someone", "someone", 5, vec![msg("receiver", b"hello", vec![])]);
    let res = kernel.handle_amp_packet(&registry, &infos, &vfs, "someone", &pkt);
    assert!(res.is_err());
}

#[test]
fn test_unauthorized_sender_rejected() {
    let (kernel, registry, infos, vfs) = setup();

    // The sender is not registry-known and the origin names someone else.
    let pkt = packet("other", "stranger", 0, vec![msg("receiver", b"hello", vec![])]);
    let res = kernel.handle_amp_packet(&registry, &infos, &vfs, "stranger", &pkt);
    assert_eq!(res.unwrap_err(), ContractError::Unauthorized);
}

#[test]
fn test_empty_packet_rejected() {
    let (kernel, registry, infos, vfs) = setup();

    let pkt = packet("someone", "someone", 0, vec![]);
    let res = kernel.handle_amp_packet(&registry, &infos, &vfs, "someone", &pkt);
    assert_eq!(
        res.unwrap_err(),
        ContractError::InvalidPacket {
            msg: Some("No messages supplied".to_string())
        }
    );
}

#[test]
fn test_local_transfer_dispatch() {
    let (kernel, registry, infos, vfs) = setup();

    // Empty payload with funds: a pure value transfer, not a payload call.
    let pkt = packet(
        "someone",
        "someone",
        0,
        vec![msg("receiver", b"", vec![coin(25, "uusd")])],
    );
    let res = kernel
        .handle_amp_packet(&registry, &infos, &vfs, "someone", &pkt)
        .unwrap();
    assert_eq!(res.messages.len(), 1);
    let sub = &res.messages[0];
    assert_eq!(sub.reply_on, ReplyOn::Error);
    assert_eq!(
        sub.msg,
        CosmosMsg::ValueTransfer {
            to_address: "receiver".to_string(),
            amount: vec![coin(25, "uusd")],
            origin: "someone".to_string(),
            previous_sender: "kernel".to_string(),
        }
    );
    assert_eq!(res.attributes[1].key, "bank_send_amount".to_string());
    assert_eq!(res.attributes[1].value, "25uusd".to_string());
}

#[test]
fn test_local_execute_dispatch() {
    let (kernel, registry, infos, vfs) = setup();

    // Non-empty payload: a wrapped single-message packet, funds or not.
    let pkt = packet(
        "someone",
        "someone",
        0,
        vec![msg("receiver", b"payload", vec![coin(25, "uusd")])],
    );
    let res = kernel
        .handle_amp_packet(&registry, &infos, &vfs, "someone", &pkt)
        .unwrap();
    assert_eq!(res.messages.len(), 1);
    let sub = &res.messages[0];
    assert_eq!(sub.reply_on, ReplyOn::Error);
    match &sub.msg {
        CosmosMsg::Execute {
            contract_addr,
            packet,
            funds,
        } => {
            assert_eq!(contract_addr, "receiver");
            assert_eq!(funds, &vec![coin(25, "uusd")]);
            // Provenance: origin preserved, the kernel as immediate sender.
            assert_eq!(packet.ctx.origin, "someone".to_string());
            assert_eq!(packet.ctx.previous_sender, "kernel".to_string());
            assert_eq!(packet.ctx.id, 0);
            assert_eq!(packet.messages.len(), 1);
            assert_eq!(packet.messages[0].message, b"payload".to_vec());
            assert_eq!(packet.messages[0].funds, vec![coin(25, "uusd")]);
        }
        other => panic!("expected a wrapped packet call, got {:?}", other),
    }
}

#[test]
fn test_empty_payload_without_funds_rejected() {
    let (kernel, registry, infos, vfs) = setup();

    let pkt = packet("someone", "someone", 0, vec![msg("receiver", b"", vec![])]);
    let res = kernel.handle_amp_packet(&registry, &infos, &vfs, "someone", &pkt);
    assert_eq!(
        res.unwrap_err(),
        ContractError::InvalidPacket {
            msg: Some("No message or funds supplied".to_string())
        }
    );
}

#[test]
fn test_bridge_dispatch() {
    let (mut kernel, registry, infos, vfs) = setup();
    kernel
        .upsert_key_address("owner", "ibc-bridge".to_string(), "bridge_addr".to_string())
        .unwrap();

    let pkt = packet(
        "someone",
        "someone",
        0,
        vec![msg("ibc://juno/app/splitter", b"fwd", vec![coin(3, "ujuno")])],
    );
    let res = kernel
        .handle_amp_packet(&registry, &infos, &vfs, "someone", &pkt)
        .unwrap();
    assert_eq!(res.messages.len(), 1);
    let sub = &res.messages[0];
    // The kernel observes both outcomes of the relay step.
    assert_eq!(sub.reply_on, ReplyOn::Always);
    assert_eq!(
        sub.msg,
        CosmosMsg::BridgeSend {
            bridge_addr: "bridge_addr".to_string(),
            chain: "juno".to_string(),
            recipient: "/app/splitter".to_string(),
            message: b"fwd".to_vec(),
            funds: vec![coin(3, "ujuno")],
        }
    );
}

#[test]
fn test_bridge_requires_declared_bridge() {
    let (kernel, registry, infos, vfs) = setup();

    let pkt = packet(
        "someone",
        "someone",
        0,
        vec![msg("ibc://juno/app", b"fwd", vec![])],
    );
    let res = kernel.handle_amp_packet(&registry, &infos, &vfs, "someone", &pkt);
    assert_eq!(
        res.unwrap_err(),
        ContractError::InvalidPacket {
            msg: Some("IBC not enabled in kernel".to_string())
        }
    );
}

#[test]
fn test_bridge_requires_chain() {
    let (mut kernel, registry, infos, vfs) = setup();
    kernel
        .upsert_key_address("owner", "ibc-bridge".to_string(), "bridge_addr".to_string())
        .unwrap();

    let pkt = packet("someone", "someone", 0, vec![msg("ibc:///path", b"fwd", vec![])]);
    let res = kernel.handle_amp_packet(&registry, &infos, &vfs, "someone", &pkt);
    assert_eq!(
        res.unwrap_err(),
        ContractError::InvalidPacket {
            msg: Some("Chain not provided".to_string())
        }
    );
}

#[test]
fn test_unknown_protocol_fatal() {
    let (kernel, registry, infos, vfs) = setup();

    // A second, resolvable message follows: the halt must be a hard failure,
    // with no partial routing.
    let pkt = packet(
        "someone",
        "someone",
        0,
        vec![
            msg("telepathy://mars/app", b"fwd", vec![]),
            msg("receiver", b"payload", vec![]),
        ],
    );
    let res = kernel.handle_amp_packet(&registry, &infos, &vfs, "someone", &pkt);
    assert_eq!(res.unwrap_err(), ContractError::UnsupportedOperation);
}

#[test]
fn test_directory_resolution() {
    let (kernel, registry, infos, _) = setup();
    let vfs = vec![ComponentAddress {
        name: "app/splitter".to_string(),
        address: "splitter_addr".to_string(),
    }];

    let pkt = packet(
        "someone",
        "someone",
        0,
        vec![msg("app/splitter", b"payload", vec![])],
    );
    let res = kernel
        .handle_amp_packet(&registry, &infos, &vfs, "someone", &pkt)
        .unwrap();
    match &res.messages[0].msg {
        CosmosMsg::Execute { contract_addr, .. } => {
            assert_eq!(contract_addr, "splitter_addr");
        }
        other => panic!("expected a wrapped packet call, got {:?}", other),
    }

    // A path the directory does not know fails with an invalid address.
    let pkt = packet(
        "someone",
        "someone",
        0,
        vec![msg("app/unknown", b"payload", vec![])],
    );
    let res = kernel.handle_amp_packet(&registry, &infos, &vfs, "someone", &pkt);
    assert_eq!(res.unwrap_err(), ContractError::InvalidAddress);
}

#[test]
fn test_registry_known_sender_admitted() {
    let (kernel, registry, infos, vfs) = setup();

    // The origin differs from the sender, but the sender is registry-known.
    let pkt = packet("origin_actor", "component", 0, vec![msg("receiver", b"x", vec![])]);
    let res = kernel.handle_amp_packet(&registry, &infos, &vfs, "component", &pkt);
    assert!(res.is_ok());
}

#[test]
fn test_verify_address() {
    let (_, registry, infos, _) = setup();

    assert!(query_verify_address(&registry, &infos, "component"));
    assert!(!query_verify_address(&registry, &infos, "stranger"));
}

#[test]
fn test_upsert_key_address() {
    let mut kernel = KernelState::new("owner".to_string(), "kernel".to_string());

    // Owner only.
    let res = kernel.upsert_key_address("not_owner", "vfs".to_string(), "vfs_addr".to_string());
    assert_eq!(res.unwrap_err(), ContractError::Unauthorized);

    kernel
        .upsert_key_address("owner", "vfs".to_string(), "vfs_addr".to_string())
        .unwrap();
    assert_eq!(
        kernel.query_key_address(&"vfs".to_string()).unwrap(),
        "vfs_addr".to_string()
    );

    // Update-or-insert semantics: a second write replaces the first.
    kernel
        .upsert_key_address("owner", "vfs".to_string(), "new_vfs_addr".to_string())
        .unwrap();
    assert_eq!(
        kernel.query_key_address(&"vfs".to_string()).unwrap(),
        "new_vfs_addr".to_string()
    );

    assert_eq!(
        kernel.query_key_address(&"adodb".to_string()).unwrap_err(),
        ContractError::NotFound
    );
}

#[test]
fn test_parse_path_home_chain() {
    let kernel = KernelState::new("owner".to_string(), "kernel".to_string());
    // The home-chain sentinel resolves to "no forwarding needed".
    let res = parse_path(&kernel, "andromeda/app/splitter", b"m".to_vec(), vec![]).unwrap();
    assert!(res.is_none());
}

#[test]
fn test_parse_path_empty_chain() {
    let kernel = KernelState::new("owner".to_string(), "kernel".to_string());
    // An empty chain segment resolves to local as a defensive default.
    let res = parse_path(&kernel, "/app/splitter", b"m".to_vec(), vec![]).unwrap();
    assert!(res.is_none());
}

#[test]
fn test_parse_path_bare_address() {
    let kernel = KernelState::new("owner".to_string(), "kernel".to_string());
    let res = parse_path(&kernel, "someaddress", b"m".to_vec(), vec![]).unwrap();
    assert!(res.is_none());
}

#[test]
fn test_parse_path_foreign_chain() {
    let mut kernel = KernelState::new("owner".to_string(), "kernel".to_string());

    // Without a declared bridge the forward is unsupported, not dropped.
    let res = parse_path(&kernel, "juno/app/splitter", b"m".to_vec(), vec![]);
    assert_eq!(res.unwrap_err(), ContractError::UnsupportedOperation);

    kernel
        .upsert_key_address("owner", "ibc-bridge".to_string(), "bridge_addr".to_string())
        .unwrap();
    let res = parse_path(
        &kernel,
        "juno/app/splitter",
        b"m".to_vec(),
        vec![coin(4, "ujuno")],
    )
    .unwrap();
    assert_eq!(
        res,
        Some(SubMsg {
            id: 0,
            reply_on: ReplyOn::Never,
            msg: CosmosMsg::ExecuteRaw {
                contract_addr: "bridge_addr".to_string(),
                message: b"m".to_vec(),
                funds: vec![coin(4, "ujuno")],
            },
        })
    );
}

#[test]
fn test_parse_path_wormhole() {
    let mut kernel = KernelState::new("owner".to_string(), "kernel".to_string());

    let res = parse_path(&kernel, "wormhole:x/y", b"m".to_vec(), vec![]);
    assert_eq!(res.unwrap_err(), ContractError::UnsupportedOperation);

    kernel
        .upsert_key_address(
            "owner",
            "wormhole-bridge".to_string(),
            "wormhole_addr".to_string(),
        )
        .unwrap();
    let res = parse_path(&kernel, "wormhole:x/y", b"m".to_vec(), vec![]).unwrap();
    assert_eq!(
        res,
        Some(SubMsg {
            id: 0,
            reply_on: ReplyOn::Never,
            msg: CosmosMsg::ExecuteRaw {
                contract_addr: "wormhole_addr".to_string(),
                message: b"m".to_vec(),
                funds: vec![],
            },
        })
    );

    // Any other protocol prefix is unsupported.
    let res = parse_path(&kernel, "warp:x/y", b"m".to_vec(), vec![]);
    assert_eq!(res.unwrap_err(), ContractError::UnsupportedOperation);
}

#[test]
fn test_handle_amp_direct_local() {
    let kernel = KernelState::new("owner".to_string(), "kernel".to_string());

    let res = kernel
        .handle_amp_direct(
            "caller",
            AndrAddr("receiver".to_string()),
            b"payload".to_vec(),
            vec![coin(9, "uandr")],
            Some(ReplyOn::Error),
            Some(false),
            Some(100_000),
        )
        .unwrap();
    assert_eq!(res.messages.len(), 1);
    match &res.messages[0].msg {
        CosmosMsg::Execute {
            contract_addr,
            packet,
            funds,
        } => {
            assert_eq!(contract_addr, "receiver");
            assert_eq!(funds, &vec![coin(9, "uandr")]);
            assert_eq!(packet.ctx.origin, "caller".to_string());
            assert_eq!(packet.ctx.previous_sender, "kernel".to_string());
            assert_eq!(packet.ctx.id, 0);
            assert_eq!(
                packet.messages[0].config,
                AMPMsgConfig {
                    reply_on: ReplyOn::Error,
                    exit_at_error: false,
                    gas_limit: Some(100_000),
                }
            );
        }
        other => panic!("expected a wrapped packet call, got {:?}", other),
    }
}

#[test]
fn test_handle_amp_direct_foreign() {
    let mut kernel = KernelState::new("owner".to_string(), "kernel".to_string());
    kernel
        .upsert_key_address("owner", "ibc-bridge".to_string(), "bridge_addr".to_string())
        .unwrap();

    let res = kernel
        .handle_amp_direct_no_ctx(
            "caller",
            AndrAddr("juno/app".to_string()),
            b"payload".to_vec(),
            vec![],
        )
        .unwrap();
    assert_eq!(res.messages.len(), 1);
    assert_eq!(
        res.messages[0].msg,
        CosmosMsg::ExecuteRaw {
            contract_addr: "bridge_addr".to_string(),
            message: b"payload".to_vec(),
            funds: vec![],
        }
    );
}

#[test]
fn test_handle_amp_message() {
    let kernel = KernelState::new("owner".to_string(), "kernel".to_string());

    let res = kernel
        .handle_amp_message("caller", msg("receiver", b"payload", vec![coin(2, "uandr")]))
        .unwrap();
    assert_eq!(res.messages.len(), 1);
    match &res.messages[0].msg {
        CosmosMsg::Execute {
            contract_addr,
            packet,
            funds,
        } => {
            assert_eq!(contract_addr, "receiver");
            assert_eq!(funds, &vec![coin(2, "uandr")]);
            assert_eq!(packet.ctx.origin, "caller".to_string());
            assert_eq!(packet.messages.len(), 1);
        }
        other => panic!("expected a wrapped packet call, got {:?}", other),
    }
}

#[test]
fn test_multi_message_order() {
    let (kernel, registry, infos, _) = setup();
    let vfs = vec![ComponentAddress {
        name: "app/a".to_string(),
        address: "addr_a".to_string(),
    }];

    let pkt = packet(
        "someone",
        "someone",
        0,
        vec![
            msg("app/a", b"first", vec![]),
            msg("receiver", b"", vec![coin(1, "uusd")]),
        ],
    );
    let res = kernel
        .handle_amp_packet(&registry, &infos, &vfs, "someone", &pkt)
        .unwrap();
    // Strict input order: the wrapped call first, the transfer second.
    assert_eq!(res.messages.len(), 2);
    assert!(matches!(res.messages[0].msg, CosmosMsg::Execute { .. }));
    assert!(matches!(res.messages[1].msg, CosmosMsg::ValueTransfer { .. }));
    assert_eq!(
        res.attributes.last().unwrap().value,
        "handle_amp_packet".to_string()
    );
}

#[test]
fn test_multi_denomination_transfer_keeps_all_funds() {
    let (kernel, registry, infos, vfs) = setup();

    // A transfer carrying several denominations forwards the whole list:
    // nothing is silently truncated to the first entry.
    let pkt = packet(
        "someone",
        "someone",
        0,
        vec![msg("receiver", b"", vec![coin(25, "uusd"), coin(7, "uandr")])],
    );
    let res = kernel
        .handle_amp_packet(&registry, &infos, &vfs, "someone", &pkt)
        .unwrap();
    match &res.messages[0].msg {
        CosmosMsg::ValueTransfer { amount, .. } => {
            assert_eq!(amount, &vec![coin(25, "uusd"), coin(7, "uandr")]);
        }
        other => panic!("expected a value transfer, got {:?}", other),
    }
}
