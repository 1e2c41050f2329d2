//! The value types shared by the components: coins, response attributes,
//! message envelopes and the sub-invocations a call requests.
//!
//! Every type has a mathematical view in which strings are character
//! sequences, so that contracts can state results exactly.

use vstd::prelude::*;

verus! {

/// After pushing one element, the deep view is the old deep view with the
/// element's view appended.
pub proof fn lemma_vec_deep_view_push<T: DeepView>(v1: Vec<T>, v2: Vec<T>, x: T)
    requires
        v2@ == v1@.push(x),
    ensures
        v2.deep_view() =~= v1.deep_view().push(x.deep_view()),
{
    assert forall|j: int| 0 <= j < v2.deep_view().len() implies v2.deep_view()[j]
        == v1.deep_view().push(x.deep_view())[j] by {
        if j < v1@.len() {
            assert(v2@[j] == v1@[j]);
        } else {
            assert(v2@[j] == x);
        }
    }
}

/// An amount of one asset denomination.
#[derive(Debug, Clone, PartialEq, Eq)]
pub struct Coin {
    pub denom: String,
    pub amount: u128,
}

/// The view of a [`Coin`].
#[verifier::ext_equal]
pub struct CoinView {
    pub denom: Seq<char>,
    pub amount: u128,
}

impl View for Coin {
    type V = CoinView;

    open spec fn view(&self) -> CoinView {
        CoinView { denom: self.denom@, amount: self.amount }
    }
}

impl DeepView for Coin {
    type V = CoinView;

    open spec fn deep_view(&self) -> CoinView {
        self.view()
    }
}

/// A key-value pair attached to a response for observability.
#[derive(Debug, Clone, PartialEq, Eq)]
pub struct Attribute {
    pub key: String,
    pub value: String,
}

/// The view of an [`Attribute`].
#[verifier::ext_equal]
pub struct AttributeView {
    pub key: Seq<char>,
    pub value: Seq<char>,
}

impl View for Attribute {
    type V = AttributeView;

    open spec fn view(&self) -> AttributeView {
        AttributeView { key: self.key@, value: self.value@ }
    }
}

impl DeepView for Attribute {
    type V = AttributeView;

    open spec fn deep_view(&self) -> AttributeView {
        self.view()
    }
}

impl Attribute {
    /// A new attribute from borrowed parts.
    pub fn new(key: &str, value: &str) -> (r: Attribute)
        ensures
            r@.key == key@,
            r@.value == value@,
    {
        Attribute { key: key.to_owned(), value: value.to_owned() }
    }
}

/// When the outcome of a sub-invocation is surfaced back to its parent's
/// control flow instead of auto-propagating.
#[derive(Clone, Copy, Debug, PartialEq, Eq)]
pub enum ReplyOn {
    Always,
    Error,
    Success,
    Never,
}

/// A logical recipient identifier: a protocol-qualified locator, a bare
/// same-chain path, or a bare address.
#[derive(Debug, Clone, PartialEq, Eq)]
pub struct AndrAddr(pub String);

impl View for AndrAddr {
    type V = Seq<char>;

    open spec fn view(&self) -> Seq<char> {
        self.0@
    }
}

impl DeepView for AndrAddr {
    type V = Seq<char>;

    open spec fn deep_view(&self) -> Seq<char> {
        self.view()
    }
}

/// The causal context a packet carries: the originating actor, the actor the
/// kernel received the packet from, and the kernel-internal sequence id.
#[derive(Debug, Clone, PartialEq, Eq)]
pub struct AMPCtx {
    pub origin: String,
    pub previous_sender: String,
    pub id: u64,
}

/// The view of an [`AMPCtx`].
#[verifier::ext_equal]
pub struct AMPCtxView {
    pub origin: Seq<char>,
    pub previous_sender: Seq<char>,
    pub id: u64,
}

impl View for AMPCtx {
    type V = AMPCtxView;

    open spec fn view(&self) -> AMPCtxView {
        AMPCtxView { origin: self.origin@, previous_sender: self.previous_sender@, id: self.id }
    }
}

impl DeepView for AMPCtx {
    type V = AMPCtxView;

    open spec fn deep_view(&self) -> AMPCtxView {
        self.view()
    }
}

/// Reply correlation settings for one message of a packet.
#[derive(Clone, Copy, Debug, PartialEq, Eq)]
pub struct AMPMsgConfig {
    pub reply_on: ReplyOn,
    pub exit_at_error: bool,
    pub gas_limit: Option<u64>,
}

impl AMPMsgConfig {
    /// A config from optional parts, with reply-always, exit-at-error and no
    /// gas limit as the defaults.
    pub fn new(reply_on: Option<ReplyOn>, exit_at_error: Option<bool>, gas_limit: Option<u64>) -> (r:
        AMPMsgConfig)
        ensures
            r.reply_on == match reply_on {
                Some(r0) => r0,
                None => ReplyOn::Always,
            },
            r.exit_at_error == match exit_at_error {
                Some(e) => e,
                None => true,
            },
            r.gas_limit == gas_limit,
    {
        AMPMsgConfig {
            reply_on: match reply_on {
                Some(r0) => r0,
                None => ReplyOn::Always,
            },
            exit_at_error: match exit_at_error {
                Some(e) => e,
                None => true,
            },
            gas_limit,
        }
    }
}

/// One message of a packet: a recipient, an opaque payload, the funds that
/// travel with it, and its reply configuration.
#[derive(Debug, Clone, PartialEq, Eq)]
pub struct AMPMsg {
    pub recipient: AndrAddr,
    pub message: Vec<u8>,
    pub funds: Vec<Coin>,
    pub config: AMPMsgConfig,
}

/// The view of an [`AMPMsg`].
#[verifier::ext_equal]
pub struct AMPMsgView {
    pub recipient: Seq<char>,
    pub message: Seq<u8>,
    pub funds: Seq<CoinView>,
    pub config: AMPMsgConfig,
}

impl View for AMPMsg {
    type V = AMPMsgView;

    open spec fn view(&self) -> AMPMsgView {
        AMPMsgView {
            recipient: self.recipient@,
            message: self.message@,
            funds: self.funds.deep_view(),
            config: self.config,
        }
    }
}

impl DeepView for AMPMsg {
    type V = AMPMsgView;

    open spec fn deep_view(&self) -> AMPMsgView {
        self.view()
    }
}

impl AMPMsg {
    /// A new message with the default reply configuration.
    pub fn new(recipient: AndrAddr, message: Vec<u8>, funds: Option<Vec<Coin>>) -> (r: AMPMsg)
        ensures
            r@.recipient == recipient@,
            r@.message == message@,
            r@.funds == match funds {
                Some(f) => f.deep_view(),
                None => Seq::<CoinView>::empty(),
            },
            r@.config == (AMPMsgConfig { reply_on: ReplyOn::Always, exit_at_error: true, gas_limit: None }),
    {
        AMPMsg {
            recipient,
            message,
            funds: match funds {
                Some(f) => f,
                None => Vec::new(),
            },
            config: AMPMsgConfig { reply_on: ReplyOn::Always, exit_at_error: true, gas_limit: None },
        }
    }

    /// The same message under another reply configuration.
    pub fn with_config(self, config: AMPMsgConfig) -> (r: AMPMsg)
        ensures
            r@.recipient == self@.recipient,
            r@.message == self@.message,
            r@.funds == self@.funds,
            r@.config == config,
    {
        AMPMsg { recipient: self.recipient, message: self.message, funds: self.funds, config }
    }
}

/// The packet envelope: causal context plus an ordered list of messages.
#[derive(Debug, Clone, PartialEq, Eq)]
pub struct AMPPkt {
    pub ctx: AMPCtx,
    pub messages: Vec<AMPMsg>,
}

/// The view of an [`AMPPkt`].
#[verifier::ext_equal]
pub struct AMPPktView {
    pub ctx: AMPCtxView,
    pub messages: Seq<AMPMsgView>,
}

impl View for AMPPkt {
    type V = AMPPktView;

    open spec fn view(&self) -> AMPPktView {
        AMPPktView { ctx: self.ctx@, messages: self.messages.deep_view() }
    }
}

impl DeepView for AMPPkt {
    type V = AMPPktView;

    open spec fn deep_view(&self) -> AMPPktView {
        self.view()
    }
}

impl AMPPkt {
    /// A new single-hop packet (sequence id zero).
    pub fn new(origin: String, previous_sender: String, messages: Vec<AMPMsg>) -> (r: AMPPkt)
        ensures
            r@.ctx.origin == origin@,
            r@.ctx.previous_sender == previous_sender@,
            r@.ctx.id == 0,
            r@.messages == messages.deep_view(),
    {
        AMPPkt { ctx: AMPCtx { origin, previous_sender, id: 0 }, messages }
    }
}

/// A host-level sub-invocation requested by a call; the host performs it
/// after the call returns.
#[derive(Debug, Clone, PartialEq, Eq)]
pub enum CosmosMsg {
    /// A pure value transfer to a local recipient, re-addressed through the
    /// kernel so the receiver can observe the causal origin.
    ValueTransfer { to_address: String, amount: Vec<Coin>, origin: String, previous_sender: String },
    /// A payload-carrying local call: the wrapped packet is delivered to the
    /// recipient together with the funds.
    Execute { contract_addr: String, packet: AMPPkt, funds: Vec<Coin> },
    /// A raw forwarding call handing opaque payload bytes on unchanged.
    ExecuteRaw { contract_addr: String, message: Vec<u8>, funds: Vec<Coin> },
    /// A cross-chain forwarding request handed to the declared bridge actor.
    BridgeSend {
        bridge_addr: String,
        chain: String,
        recipient: String,
        message: Vec<u8>,
        funds: Vec<Coin>,
    },
    /// A direct bank transfer.
    BankSend { to_address: String, amount: Vec<Coin> },
}

/// The view of a [`CosmosMsg`].
#[verifier::ext_equal]
pub enum CosmosMsgView {
    ValueTransfer {
        to_address: Seq<char>,
        amount: Seq<CoinView>,
        origin: Seq<char>,
        previous_sender: Seq<char>,
    },
    Execute { contract_addr: Seq<char>, packet: AMPPktView, funds: Seq<CoinView> },
    ExecuteRaw { contract_addr: Seq<char>, message: Seq<u8>, funds: Seq<CoinView> },
    BridgeSend {
        bridge_addr: Seq<char>,
        chain: Seq<char>,
        recipient: Seq<char>,
        message: Seq<u8>,
        funds: Seq<CoinView>,
    },
    BankSend { to_address: Seq<char>, amount: Seq<CoinView> },
}

impl View for CosmosMsg {
    type V = CosmosMsgView;

    open spec fn view(&self) -> CosmosMsgView {
        match self {
            CosmosMsg::ValueTransfer { to_address, amount, origin, previous_sender } => (
            CosmosMsgView::ValueTransfer {
                to_address: to_address@,
                amount: amount.deep_view(),
                origin: origin@,
                previous_sender: previous_sender@,
            }),
            CosmosMsg::Execute { contract_addr, packet, funds } => (CosmosMsgView::Execute {
                contract_addr: contract_addr@,
                packet: packet@,
                funds: funds.deep_view(),
            }),
            CosmosMsg::ExecuteRaw { contract_addr, message, funds } => (CosmosMsgView::ExecuteRaw {
                contract_addr: contract_addr@,
                message: message@,
                funds: funds.deep_view(),
            }),
            CosmosMsg::BridgeSend { bridge_addr, chain, recipient, message, funds } => (
            CosmosMsgView::BridgeSend {
                bridge_addr: bridge_addr@,
                chain: chain@,
                recipient: recipient@,
                message: message@,
                funds: funds.deep_view(),
            }),
            CosmosMsg::BankSend { to_address, amount } => (CosmosMsgView::BankSend {
                to_address: to_address@,
                amount: amount.deep_view(),
            }),
        }
    }
}

impl DeepView for CosmosMsg {
    type V = CosmosMsgView;

    open spec fn deep_view(&self) -> CosmosMsgView {
        self.view()
    }
}

/// A sub-invocation together with its reply correlation.
#[derive(Debug, Clone, PartialEq, Eq)]
pub struct SubMsg {
    pub id: u64,
    pub reply_on: ReplyOn,
    pub msg: CosmosMsg,
}

/// The view of a [`SubMsg`].
#[verifier::ext_equal]
pub struct SubMsgView {
    pub id: u64,
    pub reply_on: ReplyOn,
    pub msg: CosmosMsgView,
}

impl View for SubMsg {
    type V = SubMsgView;

    open spec fn view(&self) -> SubMsgView {
        SubMsgView { id: self.id, reply_on: self.reply_on, msg: self.msg@ }
    }
}

impl DeepView for SubMsg {
    type V = SubMsgView;

    open spec fn deep_view(&self) -> SubMsgView {
        self.view()
    }
}

impl SubMsg {
    /// A sub-invocation whose outcome is never surfaced back.
    pub fn new(msg: CosmosMsg) -> (r: SubMsg)
        ensures
            r@ == (SubMsgView { id: 0, reply_on: ReplyOn::Never, msg: msg@ }),
    {
        SubMsg { id: 0, reply_on: ReplyOn::Never, msg }
    }

    /// A sub-invocation whose outcome is always surfaced back.
    pub fn reply_always(msg: CosmosMsg, id: u64) -> (r: SubMsg)
        ensures
            r@ == (SubMsgView { id, reply_on: ReplyOn::Always, msg: msg@ }),
    {
        SubMsg { id, reply_on: ReplyOn::Always, msg }
    }

    /// A sub-invocation whose failure is surfaced back.
    pub fn reply_on_error(msg: CosmosMsg, id: u64) -> (r: SubMsg)
        ensures
            r@ == (SubMsgView { id, reply_on: ReplyOn::Error, msg: msg@ }),
    {
        SubMsg { id, reply_on: ReplyOn::Error, msg }
    }
}

/// What a successful call returns: the requested sub-invocations, in the
/// order they were queued, and observability attributes.
#[derive(Debug, Clone, PartialEq, Eq)]
pub struct Response {
    pub messages: Vec<SubMsg>,
    pub attributes: Vec<Attribute>,
}

/// The view of a [`Response`].
#[verifier::ext_equal]
pub struct ResponseView {
    pub messages: Seq<SubMsgView>,
    pub attributes: Seq<AttributeView>,
}

impl View for Response {
    type V = ResponseView;

    open spec fn view(&self) -> ResponseView {
        ResponseView { messages: self.messages.deep_view(), attributes: self.attributes.deep_view() }
    }
}

impl DeepView for Response {
    type V = ResponseView;

    open spec fn deep_view(&self) -> ResponseView {
        self.view()
    }
}

impl Response {
    /// A response with no sub-invocations and no attributes.
    pub fn new() -> (r: Response)
        ensures
            r.messages@ == Seq::<SubMsg>::empty(),
            r.attributes@ == Seq::<Attribute>::empty(),
            r@.messages == Seq::<SubMsgView>::empty(),
            r@.attributes == Seq::<AttributeView>::empty(),
    {
        let r = Response { messages: Vec::new(), attributes: Vec::new() };
        proof {
            assert(r@.messages =~= Seq::<SubMsgView>::empty());
            assert(r@.attributes =~= Seq::<AttributeView>::empty());
        }
        r
    }
}

/// The (empty) migration message of the kernel and registry contracts.
#[derive(Debug, Clone, PartialEq, Eq)]
pub struct MigrateMsg {}

/// An owned copy of opaque payload bytes.
pub fn copy_bytes(v: &Vec<u8>) -> (r: Vec<u8>)
    ensures
        r@ == v@,
{
    let n = v.len();
    let mut r: Vec<u8> = Vec::new();
    let mut i: usize = 0;
    while i < n
        invariant
            0 <= i <= n,
            n == v@.len(),
            r@ =~= v@.take(i as int),
        decreases n - i,
    {
        r.push(v[i]);
        proof {
            assert(v@.take(i + 1) =~= v@.take(i as int).push(v@[i as int]));
        }
        i = i + 1;
    }
    proof {
        assert(v@.take(n as int) =~= v@);
    }
    r
}

/// An owned copy of a coin list.
pub fn copy_coins(v: &Vec<Coin>) -> (r: Vec<Coin>)
    ensures
        r.deep_view() == v.deep_view(),
{
    let n = v.len();
    let mut r: Vec<Coin> = Vec::new();
    let mut i: usize = 0;
    while i < n
        invariant
            0 <= i <= n,
            n == v@.len(),
            r.deep_view() =~= v.deep_view().take(i as int),
        decreases n - i,
    {
        let ghost prev = r;
        let c = Coin { denom: v[i].denom.clone(), amount: v[i].amount };
        let ghost cc = c;
        r.push(c);
        proof {
            lemma_vec_deep_view_push(prev, r, cc);
            assert(v.deep_view().take(i + 1) =~= v.deep_view().take(i as int).push(
                v@[i as int].deep_view(),
            ));
        }
        i = i + 1;
    }
    proof {
        assert(v.deep_view().take(n as int) =~= v.deep_view());
        assert(r.deep_view() =~= v.deep_view());
    }
    r
}

/// The display form of a coin: the decimal amount followed by the
/// denomination.
pub open spec fn coin_display(c: CoinView) -> Seq<char> {
    crate::strutil::dec_str(c.amount as nat) + c.denom
}

/// Formats a coin as its display form.
pub fn coin_to_string(c: &Coin) -> (r: String)
    ensures
        r@ == coin_display(c@),
{
    crate::strutil::u128_to_string(c.amount).concat(c.denom.as_str())
}

/// Appends every attribute of `src` to `dst`, in order.
pub fn append_attributes(dst: &mut Vec<Attribute>, src: Vec<Attribute>)
    ensures
        final(dst)@ == old(dst)@ + src@,
        final(dst).deep_view() =~= old(dst).deep_view() + src.deep_view(),
{
    let ghost orig = src;
    let mut src = src;
    let n = src.len();
    let mut i: usize = 0;
    while i < n
        invariant
            0 <= i <= n,
            n == orig@.len(),
            src@ =~= orig@.skip(i as int),
            dst@ =~= old(dst)@ + orig@.take(i as int),
        decreases n - i,
    {
        let a = src.remove(0);
        dst.push(a);
        proof {
            assert(orig@.take(i + 1) =~= orig@.take(i as int).push(orig@[i as int]));
            assert(orig@.skip(i as int).drop_first() =~= orig@.skip(i + 1));
        }
        i = i + 1;
    }
    proof {
        assert(orig@.take(n as int) =~= orig@);
        assert(dst@ =~= old(dst)@ + orig@);
        assert forall|j: int| 0 <= j < dst.deep_view().len() implies dst.deep_view()[j] == (old(
            dst,
        ).deep_view() + orig.deep_view())[j] by {
            if j < old(dst)@.len() {
                assert(dst@[j] == old(dst)@[j]);
            } else {
                assert(dst@[j] == orig@[j - old(dst)@.len()]);
            }
        }
        assert(dst.deep_view() =~= old(dst).deep_view() + orig.deep_view());
    }
}

} // verus!
