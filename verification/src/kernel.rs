//! The message-routing kernel: admission of inbound packets, authorization of
//! the sender, protocol dispatch of each contained message, and the kernel's
//! own key-address configuration map.
//!
//! Every sub-invocation the kernel requests carries its reply correlation: a
//! cross-chain forward is observed on success and failure, a local forward on
//! failure, so a failed delivery surfaces back to the caller's transaction.

use vstd::prelude::*;

use crate::address::{
    chain_of, protocol_of, raw_path_of, resolve_local, spec_resolve_local, ComponentAddress,
    ComponentAddressView,
};
use crate::adodb::{AdodbState, AdodbView};
use crate::error::{ContractError, ContractErrorView};
use crate::kv::KvStore;
use crate::strutil::{contains_char, find_char, has_char, index_of_char, str_eq, substring};
use crate::types::{
    append_attributes, coin_display, coin_to_string, copy_bytes, copy_coins, AMPCtxView, AMPMsg,
    AMPMsgConfig, AMPMsgView, AMPPkt, AMPPktView, AndrAddr, Attribute, AttributeView, Coin,
    CosmosMsg, CosmosMsgView, ReplyOn, Response, SubMsg, SubMsgView,
};

verus! {

/// The mathematical content of the kernel state.
#[verifier::ext_equal]
pub struct KernelView {
    pub owner: Seq<char>,
    /// The kernel's own actor address (the immediate sender of everything it
    /// re-addresses).
    pub address: Seq<char>,
    /// The key-address configuration map (bridge, directory and registry
    /// addresses).
    pub addresses: Map<Seq<char>, Seq<char>>,
}

/// The kernel state: ownership, the kernel's own address and its key-address
/// configuration map.
pub struct KernelState {
    pub owner: String,
    pub address: String,
    pub kernel_addresses: KvStore<String, String>,
}

impl View for KernelState {
    type V = KernelView;

    open spec fn view(&self) -> KernelView {
        KernelView {
            owner: self.owner@,
            address: self.address@,
            addresses: self.kernel_addresses.contents(),
        }
    }
}

impl KernelState {
    /// The store is well-formed.
    pub open spec fn wf(self) -> bool {
        self.kernel_addresses.wf()
    }

    /// A fresh kernel owned by `owner`, deployed at `address`, with no
    /// key-address entries.
    pub fn new(owner: String, address: String) -> (r: KernelState)
        ensures
            r.wf(),
            r@.owner == owner@,
            r@.address == address@,
            r@.addresses == Map::<Seq<char>, Seq<char>>::empty(),
    {
        KernelState { owner, address, kernel_addresses: KvStore::new() }
    }

    /// Update-or-insert of one key-address entry; contract-owner only.
    pub fn upsert_key_address(&mut self, sender: &str, key: String, value: String) -> (r: Result<
        Response,
        ContractError,
    >)
        requires
            old(self).wf(),
        ensures
            final(self).wf(),
            match r {
                Ok(resp) => {
                    &&& old(self)@.owner == sender@
                    &&& final(self)@ =~~= (KernelView {
                        addresses: old(self)@.addresses.insert(key@, value@),
                        ..old(self)@
                    })
                    &&& resp@.messages == Seq::<SubMsgView>::empty()
                    &&& resp@.attributes =~~= seq![
                        AttributeView { key: "action"@, value: "upsert_key_address"@ },
                        AttributeView { key: "key"@, value: key@ },
                        AttributeView { key: "value"@, value: value@ },
                    ]
                },
                Err(e) => {
                    &&& old(self)@.owner != sender@
                    &&& e@ == ContractErrorView::Unauthorized
                    &&& *final(self) == *old(self)
                },
            },
    {
        if !str_eq(self.owner.as_str(), sender) {
            return Err(ContractError::Unauthorized);
        }
        self.kernel_addresses.insert(key.clone(), value.clone());
        let mut resp = Response::new();
        resp.attributes.push(Attribute::new("action", "upsert_key_address"));
        resp.attributes.push(Attribute { key: "key".to_owned(), value: key });
        resp.attributes.push(Attribute { key: "value".to_owned(), value: value });
        Ok(resp)
    }

    /// The address configured under `key`; `NotFound` when none is.
    pub fn query_key_address(&self, key: &String) -> (r: Result<String, ContractError>)
        requires
            self.wf(),
        ensures
            match r {
                Ok(a) => self@.addresses.contains_key(key@) && self@.addresses[key@] == a@,
                Err(e) => !self@.addresses.contains_key(key@) && e@ == ContractErrorView::NotFound,
            },
    {
        match self.kernel_addresses.get(key) {
            Some(a) => Ok(a.clone()),
            None => Err(ContractError::NotFound),
        }
    }
}

/// Whether `addr` is a registry-known component: the host knows its code id
/// and the registry binds that code id to a non-empty type.
pub open spec fn spec_verify_address(
    reg: AdodbView,
    infos: Map<Seq<char>, u64>,
    addr: Seq<char>,
) -> bool {
    &&& infos.contains_key(addr)
    &&& reg.types.contains_key(infos[addr])
    &&& reg.types[infos[addr]].len() > 0
}

/// Whether `address` is a registry-known component; `contract_infos` is the
/// host's table of deployed contract addresses and their code ids.
pub fn query_verify_address(
    registry: &AdodbState,
    contract_infos: &KvStore<String, u64>,
    address: &str,
) -> (r: bool)
    requires
        registry.wf(),
        contract_infos.wf(),
    ensures
        r == spec_verify_address(registry@, contract_infos.contents(), address@),
{
    match contract_infos.get(&address.to_owned()) {
        Some(code_id) => {
            match registry.ado_type.get(code_id) {
                Some(t) => !t.as_str().is_empty(),
                None => false,
            }
        },
        None => false,
    }
}

/// What the path resolver makes of one recipient: nothing for a local one, a
/// raw forwarding sub-invocation to the configured bridge for a qualified or
/// foreign-chain one, and an error for an unknown protocol or an undeclared
/// bridge. A bare path whose chain segment is the home-chain sentinel or
/// empty is local.
pub open spec fn spec_parse_path(
    kv: Map<Seq<char>, Seq<char>>,
    recipient: Seq<char>,
    message: Seq<u8>,
    funds: Seq<crate::types::CoinView>,
) -> Result<Option<SubMsgView>, ContractErrorView> {
    if !contains_char(recipient, '/') {
        Ok(None)
    } else {
        match find_char(recipient, ':') {
            Some(i) => {
                if recipient.take(i) == "wormhole"@ {
                    if kv.contains_key("wormhole-bridge"@) {
                        Ok(
                            Some(
                                SubMsgView {
                                    id: 0,
                                    reply_on: ReplyOn::Never,
                                    msg: CosmosMsgView::ExecuteRaw {
                                        contract_addr: kv["wormhole-bridge"@],
                                        message,
                                        funds,
                                    },
                                },
                            ),
                        )
                    } else {
                        Err(ContractErrorView::UnsupportedOperation)
                    }
                } else {
                    Err(ContractErrorView::UnsupportedOperation)
                }
            },
            None => {
                let chain = match find_char(recipient, '/') {
                    Some(j) => recipient.take(j),
                    None => recipient,
                };
                if chain == "andromeda"@ || chain.len() == 0 {
                    Ok(None)
                } else if kv.contains_key("ibc-bridge"@) {
                    Ok(
                        Some(
                            SubMsgView {
                                id: 0,
                                reply_on: ReplyOn::Never,
                                msg: CosmosMsgView::ExecuteRaw {
                                    contract_addr: kv["ibc-bridge"@],
                                    message,
                                    funds,
                                },
                            },
                        ),
                    )
                } else {
                    Err(ContractErrorView::UnsupportedOperation)
                }
            },
        }
    }
}

/// Classifies one recipient path and, for a foreign chain or a qualified
/// protocol, builds the raw forwarding sub-invocation to the configured
/// bridge; see [`spec_parse_path`].
pub fn parse_path(
    kernel: &KernelState,
    recipient: &str,
    message: Vec<u8>,
    funds: Vec<Coin>,
) -> (r: Result<Option<SubMsg>, ContractError>)
    requires
        kernel.wf(),
    ensures
        match r {
            Ok(Some(sub)) => {
                &&& spec_parse_path(kernel@.addresses, recipient@, message@, funds.deep_view())
                    matches Ok(o)
                &&& o == Some(sub@)
            },
            Ok(None) => spec_parse_path(kernel@.addresses, recipient@, message@, funds.deep_view())
                == Ok::<Option<SubMsgView>, ContractErrorView>(None),
            Err(e) => spec_parse_path(kernel@.addresses, recipient@, message@, funds.deep_view())
                == Err::<Option<SubMsgView>, ContractErrorView>(e@),
        },
{
    if !has_char(recipient, '/') {
        return Ok(None);
    }
    match index_of_char(recipient, ':') {
        Some(i) => {
            proof {
                crate::strutil::lemma_find_char_props(recipient@, ':');
                assert(recipient@.subrange(0, i as int) =~= recipient@.take(i as int));
            }
            let proto = substring(recipient, 0, i);
            if str_eq(proto.as_str(), "wormhole") {
                match kernel.kernel_addresses.get(&"wormhole-bridge".to_owned()) {
                    Some(bridge) => Ok(
                        Some(
                            SubMsg::new(
                                CosmosMsg::ExecuteRaw {
                                    contract_addr: bridge.clone(),
                                    message,
                                    funds,
                                },
                            ),
                        ),
                    ),
                    None => Err(ContractError::UnsupportedOperation),
                }
            } else {
                Err(ContractError::UnsupportedOperation)
            }
        },
        None => {
            let chain = match index_of_char(recipient, '/') {
                Some(j) => {
                    proof {
                        crate::strutil::lemma_find_char_props(recipient@, '/');
                        assert(recipient@.subrange(0, j as int) =~= recipient@.take(j as int));
                    }
                    substring(recipient, 0, j)
                },
                None => recipient.to_owned(),
            };
            if str_eq(chain.as_str(), "andromeda") || chain.as_str().is_empty() {
                Ok(None)
            } else {
                match kernel.kernel_addresses.get(&"ibc-bridge".to_owned()) {
                    Some(bridge) => Ok(
                        Some(
                            SubMsg::new(
                                CosmosMsg::ExecuteRaw {
                                    contract_addr: bridge.clone(),
                                    message,
                                    funds,
                                },
                            ),
                        ),
                    ),
                    None => Err(ContractError::UnsupportedOperation),
                }
            }
        },
    }
}

/// Where one message of a packet goes, and with what reply correlation:
///
/// - a recipient qualified with the cross-chain protocol becomes a forwarding
///   request to the declared bridge, observed on success and failure; it
///   needs a declared bridge and a chain segment;
/// - any other protocol is unsupported;
/// - a local recipient with an empty payload and funds becomes a pure value
///   transfer, re-addressed through the kernel with the origin preserved;
/// - a local recipient with a non-empty payload becomes a wrapped
///   single-message packet delivered with the funds;
/// - local forwards are observed on failure, so a failed delivery aborts the
///   caller's transaction.
pub open spec fn spec_route_msg(
    kv: Map<Seq<char>, Seq<char>>,
    vfs: Seq<ComponentAddressView>,
    kernel_addr: Seq<char>,
    origin: Seq<char>,
    m: AMPMsgView,
) -> Result<(SubMsgView, Seq<AttributeView>), ContractErrorView> {
    match protocol_of(m.recipient) {
        Some(p) => {
            if p != "ibc"@ {
                Err(ContractErrorView::UnsupportedOperation)
            } else if !kv.contains_key("ibc-bridge"@) {
                Err(ContractErrorView::InvalidPacket { msg: Some("IBC not enabled in kernel"@) })
            } else {
                match chain_of(m.recipient) {
                    None => Err(ContractErrorView::InvalidPacket { msg: Some("Chain not provided"@) }),
                    Some(chain) => Ok(
                        (
                            SubMsgView {
                                id: 1,
                                reply_on: ReplyOn::Always,
                                msg: CosmosMsgView::BridgeSend {
                                    bridge_addr: kv["ibc-bridge"@],
                                    chain,
                                    recipient: raw_path_of(m.recipient),
                                    message: m.message,
                                    funds: m.funds,
                                },
                            },
                            seq![AttributeView { key: "recipient"@, value: m.recipient }],
                        ),
                    ),
                }
            }
        },
        None => {
            match spec_resolve_local(vfs, m.recipient) {
                Err(e) => Err(e),
                Ok(addr) => {
                    if m.message.len() == 0 {
                        if m.funds.len() == 0 {
                            Err(
                                ContractErrorView::InvalidPacket {
                                    msg: Some("No message or funds supplied"@),
                                },
                            )
                        } else {
                            Ok(
                                (
                                    SubMsgView {
                                        id: 1,
                                        reply_on: ReplyOn::Error,
                                        msg: CosmosMsgView::ValueTransfer {
                                            to_address: addr,
                                            amount: m.funds,
                                            origin,
                                            previous_sender: kernel_addr,
                                        },
                                    },
                                    seq![
                                        AttributeView { key: "recipient"@, value: addr },
                                        AttributeView {
                                            key: "bank_send_amount"@,
                                            value: coin_display(m.funds[0]),
                                        },
                                    ],
                                ),
                            )
                        }
                    } else {
                        Ok(
                            (
                                SubMsgView {
                                    id: 1,
                                    reply_on: ReplyOn::Error,
                                    msg: CosmosMsgView::Execute {
                                        contract_addr: addr,
                                        packet: AMPPktView {
                                            ctx: AMPCtxView {
                                                origin,
                                                previous_sender: kernel_addr,
                                                id: 0,
                                            },
                                            messages: seq![
                                                AMPMsgView {
                                                    recipient: addr,
                                                    message: m.message,
                                                    funds: m.funds,
                                                    config: AMPMsgConfig {
                                                        reply_on: ReplyOn::Always,
                                                        exit_at_error: true,
                                                        gas_limit: None,
                                                    },
                                                },
                                            ],
                                        },
                                        funds: m.funds,
                                    },
                                },
                                seq![AttributeView { key: "recipient"@, value: addr }],
                            ),
                        )
                    }
                },
            }
        },
    }
}

/// The sub-invocations and attributes of a whole message list, in input
/// order; the first failing message decides the error.
pub open spec fn spec_route_all(
    kv: Map<Seq<char>, Seq<char>>,
    vfs: Seq<ComponentAddressView>,
    kernel_addr: Seq<char>,
    origin: Seq<char>,
    msgs: Seq<AMPMsgView>,
) -> Result<(Seq<SubMsgView>, Seq<AttributeView>), ContractErrorView>
    decreases msgs.len(),
{
    if msgs.len() == 0 {
        Ok((Seq::empty(), Seq::empty()))
    } else {
        match spec_route_all(kv, vfs, kernel_addr, origin, msgs.drop_last()) {
            Err(e) => Err(e),
            Ok((subs, attrs)) => match spec_route_msg(kv, vfs, kernel_addr, origin, msgs.last()) {
                Err(e) => Err(e),
                Ok((s, a)) => Ok((subs.push(s), attrs + a)),
            },
        }
    }
}

/// The whole effect of an inbound packet: the immediate sender must be a
/// registry-known component or the packet's own origin, the sequence id must
/// be zero, the message list must not be empty, and every message must route;
/// the response then carries the sub-invocations in input order.
pub open spec fn spec_handle_amp_packet(
    kv: Map<Seq<char>, Seq<char>>,
    kernel_addr: Seq<char>,
    reg: AdodbView,
    infos: Map<Seq<char>, u64>,
    vfs: Seq<ComponentAddressView>,
    sender: Seq<char>,
    pkt: AMPPktView,
) -> Result<(Seq<SubMsgView>, Seq<AttributeView>), ContractErrorView> {
    if !(spec_verify_address(reg, infos, sender) || pkt.ctx.origin == sender) {
        Err(ContractErrorView::Unauthorized)
    } else if pkt.ctx.id != 0 {
        Err(
            ContractErrorView::InvalidPacket {
                msg: Some("Packet ID cannot be provided from outside the Kernel"@),
            },
        )
    } else if pkt.messages.len() == 0 {
        Err(ContractErrorView::InvalidPacket { msg: Some("No messages supplied"@) })
    } else {
        match spec_route_all(kv, vfs, kernel_addr, pkt.ctx.origin, pkt.messages) {
            Err(e) => Err(e),
            Ok((subs, attrs)) => Ok(
                (subs, attrs.push(AttributeView { key: "action"@, value: "handle_amp_packet"@ })),
            ),
        }
    }
}

proof fn lemma_route_all_step(
    kv: Map<Seq<char>, Seq<char>>,
    vfs: Seq<ComponentAddressView>,
    kernel_addr: Seq<char>,
    origin: Seq<char>,
    msgs: Seq<AMPMsgView>,
    i: int,
)
    requires
        0 <= i < msgs.len(),
    ensures
        spec_route_all(kv, vfs, kernel_addr, origin, msgs.take(i + 1)) == (match spec_route_all(
            kv,
            vfs,
            kernel_addr,
            origin,
            msgs.take(i),
        ) {
            Err(e) => Err(e),
            Ok((subs, attrs)) => match spec_route_msg(kv, vfs, kernel_addr, origin, msgs[i]) {
                Err(e) => Err(e),
                Ok((s, a)) => Ok((subs.push(s), attrs + a)),
            },
        }),
{
    assert(msgs.take(i + 1).drop_last() =~= msgs.take(i));
    assert(msgs.take(i + 1).last() == msgs[i]);
}

proof fn lemma_route_all_err_persists(
    kv: Map<Seq<char>, Seq<char>>,
    vfs: Seq<ComponentAddressView>,
    kernel_addr: Seq<char>,
    origin: Seq<char>,
    msgs: Seq<AMPMsgView>,
    i: int,
)
    requires
        0 <= i <= msgs.len(),
        spec_route_all(kv, vfs, kernel_addr, origin, msgs.take(i)) is Err,
    ensures
        spec_route_all(kv, vfs, kernel_addr, origin, msgs) == spec_route_all(
            kv,
            vfs,
            kernel_addr,
            origin,
            msgs.take(i),
        ),
    decreases msgs.len() - i,
{
    if i == msgs.len() {
        assert(msgs.take(i) =~= msgs);
    } else {
        lemma_route_all_step(kv, vfs, kernel_addr, origin, msgs, i);
        lemma_route_all_err_persists(kv, vfs, kernel_addr, origin, msgs, i + 1);
    }
}

/// Routes one message of a packet; see [`spec_route_msg`].
fn route_msg(
    kernel: &KernelState,
    vfs: &Vec<ComponentAddress>,
    origin: &String,
    m: &AMPMsg,
) -> (r: Result<(SubMsg, Vec<Attribute>), ContractError>)
    requires
        kernel.wf(),
    ensures
        match r {
            Ok(sa) => {
                &&& spec_route_msg(kernel@.addresses, vfs.deep_view(), kernel@.address, origin@, m@)
                    is Ok
                &&& sa.0@ =~~= spec_route_msg(
                    kernel@.addresses,
                    vfs.deep_view(),
                    kernel@.address,
                    origin@,
                    m@,
                )->Ok_0.0
                &&& sa.1.deep_view() =~~= spec_route_msg(
                    kernel@.addresses,
                    vfs.deep_view(),
                    kernel@.address,
                    origin@,
                    m@,
                )->Ok_0.1
            },
            Err(e) => spec_route_msg(
                kernel@.addresses,
                vfs.deep_view(),
                kernel@.address,
                origin@,
                m@,
            ) == Err::<(SubMsgView, Seq<AttributeView>), ContractErrorView>(e@),
        },
{
    match m.recipient.get_protocol() {
        Some(p) => {
            if !str_eq(p.as_str(), "ibc") {
                return Err(ContractError::UnsupportedOperation);
            }
            let bridge: String = match kernel.kernel_addresses.get(&"ibc-bridge".to_owned()) {
                Some(b) => b.clone(),
                None => {
                    return Err(
                        ContractError::InvalidPacket {
                            msg: Some("IBC not enabled in kernel".to_owned()),
                        },
                    );
                },
            };
            let chain: String = match m.recipient.get_chain() {
                Some(c) => c,
                None => {
                    return Err(
                        ContractError::InvalidPacket { msg: Some("Chain not provided".to_owned()) },
                    );
                },
            };
            let sub = SubMsg::reply_always(
                CosmosMsg::BridgeSend {
                    bridge_addr: bridge,
                    chain,
                    recipient: m.recipient.get_raw_path(),
                    message: copy_bytes(&m.message),
                    funds: copy_coins(&m.funds),
                },
                1,
            );
            let mut attrs: Vec<Attribute> = Vec::new();
            attrs.push(Attribute::new("recipient", m.recipient.0.as_str()));
            proof {
                assert(attrs.deep_view() =~= seq![
                    AttributeView { key: "recipient"@, value: m@.recipient },
                ]);
            }
            Ok((sub, attrs))
        },
        None => {
            let addr: String = match resolve_local(vfs, m.recipient.0.as_str()) {
                Ok(a) => a,
                Err(e) => {
                    return Err(e);
                },
            };
            if m.message.len() == 0 {
                if m.funds.len() == 0 {
                    return Err(
                        ContractError::InvalidPacket {
                            msg: Some("No message or funds supplied".to_owned()),
                        },
                    );
                }
                let sub = SubMsg::reply_on_error(
                    CosmosMsg::ValueTransfer {
                        to_address: addr.clone(),
                        amount: copy_coins(&m.funds),
                        origin: origin.clone(),
                        previous_sender: kernel.address.clone(),
                    },
                    1,
                );
                let mut attrs: Vec<Attribute> = Vec::new();
                attrs.push(Attribute { key: "recipient".to_owned(), value: addr });
                attrs.push(Attribute {
                    key: "bank_send_amount".to_owned(),
                    value: coin_to_string(&m.funds[0]),
                });
                proof {
                    assert(m.funds.deep_view()[0] == m.funds@[0].deep_view());
                    assert(attrs.deep_view() =~= spec_route_msg(
                        kernel@.addresses,
                        vfs.deep_view(),
                        kernel@.address,
                        origin@,
                        m@,
                    )->Ok_0.1);
                }
                Ok((sub, attrs))
            } else {
                let inner = AMPMsg::new(
                    AndrAddr(addr.clone()),
                    copy_bytes(&m.message),
                    Some(copy_coins(&m.funds)),
                );
                let mut inner_msgs: Vec<AMPMsg> = Vec::new();
                let ghost prev_inner = inner_msgs;
                let ghost inner_v = inner;
                inner_msgs.push(inner);
                proof {
                    crate::types::lemma_vec_deep_view_push(prev_inner, inner_msgs, inner_v);
                    assert(prev_inner.deep_view() =~= Seq::<AMPMsgView>::empty());
                }
                let pkt = AMPPkt::new(origin.clone(), kernel.address.clone(), inner_msgs);
                let sub = SubMsg::reply_on_error(
                    CosmosMsg::Execute {
                        contract_addr: addr.clone(),
                        packet: pkt,
                        funds: copy_coins(&m.funds),
                    },
                    1,
                );
                let mut attrs: Vec<Attribute> = Vec::new();
                attrs.push(Attribute { key: "recipient".to_owned(), value: addr });
                proof {
                    assert(attrs.deep_view() =~= spec_route_msg(
                        kernel@.addresses,
                        vfs.deep_view(),
                        kernel@.address,
                        origin@,
                        m@,
                    )->Ok_0.1);
                    assert(sub@ =~~= spec_route_msg(
                        kernel@.addresses,
                        vfs.deep_view(),
                        kernel@.address,
                        origin@,
                        m@,
                    )->Ok_0.0);
                }
                Ok((sub, attrs))
            }
        },
    }
}

impl KernelState {
    /// Admits and dispatches one inbound packet; see
    /// [`spec_handle_amp_packet`]. `contract_infos` is the host's table of
    /// deployed contract addresses and their code ids, `vfs` the directory
    /// the resolver consults.
    #[verifier::loop_isolation(false)]
    pub fn handle_amp_packet(
        &self,
        registry: &AdodbState,
        contract_infos: &KvStore<String, u64>,
        vfs: &Vec<ComponentAddress>,
        sender: &str,
        packet: &AMPPkt,
    ) -> (r: Result<Response, ContractError>)
        requires
            self.wf(),
            registry.wf(),
            contract_infos.wf(),
        ensures
            ({
                let expect = spec_handle_amp_packet(
                    self@.addresses,
                    self@.address,
                    registry@,
                    contract_infos.contents(),
                    vfs.deep_view(),
                    sender@,
                    packet@,
                );
                match r {
                    Ok(resp) => {
                        &&& expect is Ok
                        &&& resp@.messages =~~= expect->Ok_0.0
                        &&& resp@.attributes =~~= expect->Ok_0.1
                    },
                    Err(e) => expect == Err::<
                        (Seq<SubMsgView>, Seq<AttributeView>),
                        ContractErrorView,
                    >(e@),
                }
            }),
    {
        let authorized = query_verify_address(registry, contract_infos, sender) || str_eq(
            packet.ctx.origin.as_str(),
            sender,
        );
        if !authorized {
            return Err(ContractError::Unauthorized);
        }
        if packet.ctx.id != 0 {
            return Err(
                ContractError::InvalidPacket {
                    msg: Some("Packet ID cannot be provided from outside the Kernel".to_owned()),
                },
            );
        }
        let n = packet.messages.len();
        if n == 0 {
            return Err(ContractError::InvalidPacket { msg: Some("No messages supplied".to_owned()) });
        }
        let mut resp = Response::new();
        let mut i: usize = 0;
        while i < n
            invariant
                0 <= i <= n,
                spec_route_all(
                    self@.addresses,
                    vfs.deep_view(),
                    self@.address,
                    packet@.ctx.origin,
                    packet@.messages.take(i as int),
                ) is Ok,
                resp.messages.deep_view() =~= spec_route_all(
                    self@.addresses,
                    vfs.deep_view(),
                    self@.address,
                    packet@.ctx.origin,
                    packet@.messages.take(i as int),
                )->Ok_0.0,
                resp.attributes.deep_view() =~= spec_route_all(
                    self@.addresses,
                    vfs.deep_view(),
                    self@.address,
                    packet@.ctx.origin,
                    packet@.messages.take(i as int),
                )->Ok_0.1,
            decreases n - i,
        {
            proof {
                assert(packet.messages.deep_view()[i as int] == packet.messages@[i as int].deep_view());
                lemma_route_all_step(
                    self@.addresses,
                    vfs.deep_view(),
                    self@.address,
                    packet@.ctx.origin,
                    packet@.messages,
                    i as int,
                );
            }
            match route_msg(self, vfs, &packet.ctx.origin, &packet.messages[i]) {
                Ok((sub, attrs)) => {
                    let ghost prev = resp.messages;
                    let ghost sub_v = sub;
                    resp.messages.push(sub);
                    proof {
                        crate::types::lemma_vec_deep_view_push(prev, resp.messages, sub_v);
                    }
                    append_attributes(&mut resp.attributes, attrs);
                },
                Err(e) => {
                    proof {
                        lemma_route_all_err_persists(
                            self@.addresses,
                            vfs.deep_view(),
                            self@.address,
                            packet@.ctx.origin,
                            packet@.messages,
                            i + 1,
                        );
                    }
                    return Err(e);
                },
            }
            i = i + 1;
        }
        proof {
            assert(packet@.messages.take(n as int) =~= packet@.messages);
        }
        let ghost prev = resp.attributes;
        let closing = Attribute::new("action", "handle_amp_packet");
        let ghost closing_v = closing;
        resp.attributes.push(closing);
        proof {
            crate::types::lemma_vec_deep_view_push(prev, resp.attributes, closing_v);
        }
        Ok(resp)
    }
}

/// The effect of a direct single-message submission: the recipient path is
/// classified first; a foreign path yields the resolver's forwarding
/// sub-invocation, a local one a wrapped single-message packet originating at
/// the submitting caller. `action` names the entry point in the attributes.
pub open spec fn spec_handle_amp_direct(
    kv: Map<Seq<char>, Seq<char>>,
    kernel_addr: Seq<char>,
    sender: Seq<char>,
    recipient: Seq<char>,
    message: Seq<u8>,
    funds: Seq<crate::types::CoinView>,
    config: AMPMsgConfig,
    action: Seq<char>,
) -> Result<(Seq<SubMsgView>, Seq<AttributeView>), ContractErrorView> {
    match spec_parse_path(kv, recipient, message, funds) {
        Err(e) => Err(e),
        Ok(opt) => {
            let attrs = seq![
                AttributeView { key: "action"@, value: action },
                AttributeView { key: "recipient"@, value: recipient },
            ];
            match opt {
                Some(sub) => Ok((seq![sub], attrs)),
                None => Ok(
                    (
                        seq![
                            SubMsgView {
                                id: 0,
                                reply_on: ReplyOn::Never,
                                msg: CosmosMsgView::Execute {
                                    contract_addr: recipient,
                                    packet: AMPPktView {
                                        ctx: AMPCtxView {
                                            origin: sender,
                                            previous_sender: kernel_addr,
                                            id: 0,
                                        },
                                        messages: seq![
                                            AMPMsgView { recipient, message, funds, config },
                                        ],
                                    },
                                    funds,
                                },
                            },
                        ],
                        attrs,
                    ),
                ),
            }
        },
    }
}

/// What a single-message relay wraps: the message as supplied, in a packet
/// originating at the submitting caller, delivered with the message's funds.
pub open spec fn spec_handle_amp_message(kernel_addr: Seq<char>, sender: Seq<char>, m: AMPMsgView) -> (
    Seq<SubMsgView>,
    Seq<AttributeView>,
) {
    (
        seq![
            SubMsgView {
                id: 0,
                reply_on: ReplyOn::Never,
                msg: CosmosMsgView::Execute {
                    contract_addr: m.recipient,
                    packet: AMPPktView {
                        ctx: AMPCtxView { origin: sender, previous_sender: kernel_addr, id: 0 },
                        messages: seq![m],
                    },
                    funds: m.funds,
                },
            },
        ],
        seq![
            AttributeView { key: "action"@, value: "handle_amp_message"@ },
            AttributeView { key: "recipient"@, value: m.recipient },
            AttributeView { key: "origin"@, value: sender },
        ],
    )
}

impl KernelState {
    /// Submits one message with an explicit reply configuration; see
    /// [`spec_handle_amp_direct`].
    pub fn handle_amp_direct(
        &self,
        sender: &str,
        recipient: AndrAddr,
        message: Vec<u8>,
        funds: Vec<Coin>,
        reply_on: Option<ReplyOn>,
        exit_at_error: Option<bool>,
        gas_limit: Option<u64>,
    ) -> (r: Result<Response, ContractError>)
        requires
            self.wf(),
        ensures
            ({
                let expect = spec_handle_amp_direct(
                    self@.addresses,
                    self@.address,
                    sender@,
                    recipient@,
                    message@,
                    funds.deep_view(),
                    AMPMsgConfig {
                        reply_on: match reply_on {
                            Some(r0) => r0,
                            None => ReplyOn::Always,
                        },
                        exit_at_error: match exit_at_error {
                            Some(e) => e,
                            None => true,
                        },
                        gas_limit,
                    },
                    "handle_amp_direct"@,
                );
                match r {
                    Ok(resp) => {
                        &&& expect is Ok
                        &&& resp@.messages =~~= expect->Ok_0.0
                        &&& resp@.attributes =~~= expect->Ok_0.1
                    },
                    Err(e) => expect == Err::<
                        (Seq<SubMsgView>, Seq<AttributeView>),
                        ContractErrorView,
                    >(e@),
                }
            }),
    {
        let config = AMPMsgConfig::new(reply_on, exit_at_error, gas_limit);
        self.direct_dispatch(sender, recipient, message, funds, config, "handle_amp_direct")
    }

    /// Submits one message under the default reply configuration; see
    /// [`spec_handle_amp_direct`].
    pub fn handle_amp_direct_no_ctx(
        &self,
        sender: &str,
        recipient: AndrAddr,
        message: Vec<u8>,
        funds: Vec<Coin>,
    ) -> (r: Result<Response, ContractError>)
        requires
            self.wf(),
        ensures
            ({
                let expect = spec_handle_amp_direct(
                    self@.addresses,
                    self@.address,
                    sender@,
                    recipient@,
                    message@,
                    funds.deep_view(),
                    AMPMsgConfig { reply_on: ReplyOn::Always, exit_at_error: true, gas_limit: None },
                    "handle_amp_direct_no_ctx"@,
                );
                match r {
                    Ok(resp) => {
                        &&& expect is Ok
                        &&& resp@.messages =~~= expect->Ok_0.0
                        &&& resp@.attributes =~~= expect->Ok_0.1
                    },
                    Err(e) => expect == Err::<
                        (Seq<SubMsgView>, Seq<AttributeView>),
                        ContractErrorView,
                    >(e@),
                }
            }),
    {
        let config = AMPMsgConfig::new(None, None, None);
        self.direct_dispatch(sender, recipient, message, funds, config, "handle_amp_direct_no_ctx")
    }

    fn direct_dispatch(
        &self,
        sender: &str,
        recipient: AndrAddr,
        message: Vec<u8>,
        funds: Vec<Coin>,
        config: AMPMsgConfig,
        action: &str,
    ) -> (r: Result<Response, ContractError>)
        requires
            self.wf(),
        ensures
            ({
                let expect = spec_handle_amp_direct(
                    self@.addresses,
                    self@.address,
                    sender@,
                    recipient@,
                    message@,
                    funds.deep_view(),
                    config,
                    action@,
                );
                match r {
                    Ok(resp) => {
                        &&& expect is Ok
                        &&& resp@.messages =~~= expect->Ok_0.0
                        &&& resp@.attributes =~~= expect->Ok_0.1
                    },
                    Err(e) => expect == Err::<
                        (Seq<SubMsgView>, Seq<AttributeView>),
                        ContractErrorView,
                    >(e@),
                }
            }),
    {
        let mut resp = Response::new();
        let parsed = match parse_path(
            self,
            recipient.0.as_str(),
            copy_bytes(&message),
            copy_coins(&funds),
        ) {
            Ok(p) => p,
            Err(e) => {
                return Err(e);
            },
        };
        let sub: SubMsg = match parsed {
            Some(sub) => sub,
            None => {
                let inner = AMPMsg::new(
                    AndrAddr(recipient.0.clone()),
                    message,
                    Some(copy_coins(&funds)),
                ).with_config(config);
                let mut inner_msgs: Vec<AMPMsg> = Vec::new();
                let ghost prev_inner = inner_msgs;
                let ghost inner_v = inner;
                inner_msgs.push(inner);
                proof {
                    crate::types::lemma_vec_deep_view_push(prev_inner, inner_msgs, inner_v);
                    assert(prev_inner.deep_view() =~= Seq::<AMPMsgView>::empty());
                }
                let pkt = AMPPkt::new(sender.to_owned(), self.address.clone(), inner_msgs);
                SubMsg::new(
                    CosmosMsg::Execute { contract_addr: recipient.0.clone(), packet: pkt, funds },
                )
            },
        };
        let ghost prev = resp.messages;
        let ghost sub_v = sub;
        resp.messages.push(sub);
        proof {
            crate::types::lemma_vec_deep_view_push(prev, resp.messages, sub_v);
        }
        resp.attributes.push(Attribute::new("action", action));
        resp.attributes.push(Attribute { key: "recipient".to_owned(), value: recipient.0 });
        Ok(resp)
    }

    /// Relays one pre-built message as a packet originating at the caller;
    /// see [`spec_handle_amp_message`].
    pub fn handle_amp_message(&self, sender: &str, message: AMPMsg) -> (r: Result<
        Response,
        ContractError,
    >)
        requires
            self.wf(),
        ensures
            r is Ok,
            ({
                let expect = spec_handle_amp_message(self@.address, sender@, message@);
                &&& r->Ok_0@.messages =~~= expect.0
                &&& r->Ok_0@.attributes =~~= expect.1
            }),
    {
        let mut resp = Response::new();
        let recipient_str = message.recipient.0.clone();
        let funds = copy_coins(&message.funds);
        let mut inner_msgs: Vec<AMPMsg> = Vec::new();
        let ghost prev_inner = inner_msgs;
        let ghost inner_v = message;
        inner_msgs.push(message);
        proof {
            crate::types::lemma_vec_deep_view_push(prev_inner, inner_msgs, inner_v);
            assert(prev_inner.deep_view() =~= Seq::<AMPMsgView>::empty());
        }
        let pkt = AMPPkt::new(sender.to_owned(), self.address.clone(), inner_msgs);
        let sub = SubMsg::new(
            CosmosMsg::Execute { contract_addr: recipient_str.clone(), packet: pkt, funds },
        );
        let ghost prev = resp.messages;
        let ghost sub_v = sub;
        resp.messages.push(sub);
        proof {
            crate::types::lemma_vec_deep_view_push(prev, resp.messages, sub_v);
        }
        resp.attributes.push(Attribute::new("action", "handle_amp_message"));
        resp.attributes.push(Attribute { key: "recipient".to_owned(), value: recipient_str });
        resp.attributes.push(Attribute { key: "origin".to_owned(), value: sender.to_owned() });
        Ok(resp)
    }
}

/// A packet whose sequence id was not zeroed is rejected, whatever the sender
/// and whatever it contains.
pub proof fn lemma_forged_sequence_rejected(
    kv: Map<Seq<char>, Seq<char>>,
    kernel_addr: Seq<char>,
    reg: AdodbView,
    infos: Map<Seq<char>, u64>,
    vfs: Seq<ComponentAddressView>,
    sender: Seq<char>,
    pkt: AMPPktView,
)
    requires
        pkt.ctx.id != 0,
    ensures
        spec_handle_amp_packet(kv, kernel_addr, reg, infos, vfs, sender, pkt) is Err,
{
}

/// A local message with an empty payload and funds becomes a pure value
/// transfer carrying the full funds; one with a non-empty payload becomes a
/// wrapped single-message packet, funds or not. Both preserve the packet's
/// origin and name the kernel as the immediate sender.
pub proof fn lemma_local_dispatch_classification(
    kv: Map<Seq<char>, Seq<char>>,
    vfs: Seq<ComponentAddressView>,
    kernel_addr: Seq<char>,
    origin: Seq<char>,
    m: AMPMsgView,
)
    requires
        protocol_of(m.recipient) is None,
        spec_resolve_local(vfs, m.recipient) is Ok,
    ensures
        m.message.len() == 0 && m.funds.len() > 0 ==> ({
            let routed = spec_route_msg(kv, vfs, kernel_addr, origin, m);
            &&& routed is Ok
            &&& routed->Ok_0.0.msg matches CosmosMsgView::ValueTransfer {
                to_address,
                amount,
                origin: o,
                previous_sender,
            } && amount == m.funds && o == origin && previous_sender == kernel_addr
        }),
        m.message.len() > 0 ==> ({
            let routed = spec_route_msg(kv, vfs, kernel_addr, origin, m);
            &&& routed is Ok
            &&& routed->Ok_0.0.msg matches CosmosMsgView::Execute { contract_addr, packet, funds }
                && funds == m.funds && packet.messages.len() == 1 && packet.messages[0].message
                == m.message && packet.messages[0].funds == m.funds && packet.ctx.origin == origin
                && packet.ctx.previous_sender == kernel_addr && packet.ctx.id == 0
        }),
{
}

} // verus!
