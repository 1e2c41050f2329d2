//! The component registry: the mapping of logical component type and version
//! to deployable code id, the latest-version pointer, publisher attribution
//! and the per-action fee schedule, with the publication invariants.

use vstd::prelude::*;

use crate::error::{ContractError, ContractErrorView};
use crate::kv::KvStore;
use crate::strutil::{contains_char, str_eq};
use crate::types::{Attribute, AttributeView, Response, SubMsgView};
use crate::version::{is_semver, parse_ado_version, semver_gt, semver_is_valid, semver_newer, ADOVersion, ADOVersionView};

verus! {

/// The fee the registry charges for one action of a component type.
#[derive(Debug, Clone, PartialEq, Eq)]
pub struct ActionFee {
    pub action: String,
    pub asset: String,
    pub amount: u128,
    pub receiver: Option<String>,
}

/// The view of an [`ActionFee`].
#[verifier::ext_equal]
pub struct ActionFeeView {
    pub action: Seq<char>,
    pub asset: Seq<char>,
    pub amount: u128,
    pub receiver: Option<Seq<char>>,
}

impl View for ActionFee {
    type V = ActionFeeView;

    open spec fn view(&self) -> ActionFeeView {
        ActionFeeView {
            action: self.action@,
            asset: self.asset@,
            amount: self.amount,
            receiver: match self.receiver {
                Some(ref r) => Some(r@),
                None => None,
            },
        }
    }
}

impl DeepView for ActionFee {
    type V = ActionFeeView;

    open spec fn deep_view(&self) -> ActionFeeView {
        self.view()
    }
}

impl ActionFee {
    /// A fee without a designated receiver.
    pub fn new(action: String, asset: String, amount: u128) -> (r: ActionFee)
        ensures
            r@ == (ActionFeeView { action: action@, asset: asset@, amount, receiver: None }),
    {
        ActionFee { action, asset, amount, receiver: None }
    }

    /// An owned copy.
    pub fn dup(&self) -> (r: ActionFee)
        ensures
            r@ == self@,
    {
        ActionFee {
            action: self.action.clone(),
            asset: self.asset.clone(),
            amount: self.amount,
            receiver: match &self.receiver {
                Some(rec) => Some(rec.clone()),
                None => None,
            },
        }
    }
}

/// The newest published version of a type and its code id.
#[derive(Debug, Clone, PartialEq, Eq)]
pub struct VersionCode {
    pub version: String,
    pub code_id: u64,
}

impl View for VersionCode {
    type V = (Seq<char>, u64);

    open spec fn view(&self) -> (Seq<char>, u64) {
        (self.version@, self.code_id)
    }
}

/// Publisher and latest version of a component type.
#[derive(Debug, Clone, PartialEq, Eq)]
pub struct ADOMetadata {
    pub publisher: String,
    pub latest_version: String,
}

/// The mathematical content of the registry.
#[verifier::ext_equal]
pub struct AdodbView {
    pub owner: Seq<char>,
    pub operators: Seq<Seq<char>>,
    /// The unversioned default code id of each type.
    pub defaults: Map<Seq<char>, u64>,
    /// One entry per published (type, version) pair.
    pub codes: Map<(Seq<char>, Seq<char>), u64>,
    /// The newest published (version, code id) of each type.
    pub latest: Map<Seq<char>, (Seq<char>, u64)>,
    /// The type each code id is bound to, immutable once set.
    pub types: Map<u64, Seq<char>>,
    /// The publisher attributed to each type.
    pub publishers: Map<Seq<char>, Seq<char>>,
    /// The fee schedule, keyed by (type, action).
    pub fees: Map<(Seq<char>, Seq<char>), ActionFeeView>,
}

impl AdodbView {
    /// Whether `s` is a registered operator.
    pub open spec fn is_operator(self, s: Seq<char>) -> bool {
        exists|i: int| 0 <= i < self.operators.len() && self.operators[i] == s
    }

    /// Whether `s` is the contract owner or a registered operator.
    pub open spec fn is_owner_or_operator(self, s: Seq<char>) -> bool {
        self.owner == s || self.is_operator(s)
    }
}

/// The registry state: ownership plus the keyed entry set.
pub struct AdodbState {
    pub owner: String,
    pub operators: Vec<String>,
    pub code_id: KvStore<String, u64>,
    pub version_code_id: KvStore<(String, String), u64>,
    pub latest_version: KvStore<String, VersionCode>,
    pub ado_type: KvStore<u64, String>,
    pub publisher: KvStore<String, String>,
    pub action_fees: KvStore<(String, String), ActionFee>,
}

impl View for AdodbState {
    type V = AdodbView;

    open spec fn view(&self) -> AdodbView {
        AdodbView {
            owner: self.owner@,
            operators: self.operators.deep_view(),
            defaults: self.code_id.contents(),
            codes: self.version_code_id.contents(),
            latest: self.latest_version.contents(),
            types: self.ado_type.contents(),
            publishers: self.publisher.contents(),
            fees: self.action_fees.contents(),
        }
    }
}

/// The effect of binding `code_id` to a type and version: rejected when the
/// code id is already bound to a different type, otherwise the type binding,
/// the latest-version pointer and the versioned entry are written, and a
/// default pointer is created where none exists yet (an unversioned binding
/// overwrites the default).
pub open spec fn spec_store_code_id(pre: AdodbView, av: ADOVersionView, code_id: u64) -> Result<
    AdodbView,
    ContractErrorView,
> {
    if pre.types.contains_key(code_id) && pre.types[code_id] != av.ado_type {
        Err(ContractErrorView::Unauthorized)
    } else {
        let ver = av.spec_version();
        Ok(
            AdodbView {
                types: pre.types.insert(code_id, av.ado_type),
                latest: pre.latest.insert(av.ado_type, (ver, code_id)),
                codes: if ver == "latest"@ {
                    pre.codes
                } else {
                    pre.codes.insert((av.ado_type, ver), code_id)
                },
                defaults: if ver == "latest"@ || !pre.defaults.contains_key(av.ado_type) {
                    pre.defaults.insert(av.ado_type, code_id)
                } else {
                    pre.defaults
                },
                ..pre
            },
        )
    }
}

/// The effect of unbinding `code_id` from a type and version: rejected when
/// the code id is bound to a different type, otherwise the type binding and
/// the latest-version pointer are dropped, and so is the versioned entry (the
/// unversioned default pointer for an unversioned key).
pub open spec fn spec_remove_code_id(pre: AdodbView, av: ADOVersionView, code_id: u64) -> Result<
    AdodbView,
    ContractErrorView,
> {
    if pre.types.contains_key(code_id) && pre.types[code_id] != av.ado_type {
        Err(ContractErrorView::Unauthorized)
    } else {
        let ver = av.spec_version();
        Ok(
            AdodbView {
                types: pre.types.remove(code_id),
                latest: pre.latest.remove(av.ado_type),
                codes: if ver == "latest"@ {
                    pre.codes
                } else {
                    pre.codes.remove((av.ado_type, ver))
                },
                defaults: if ver == "latest"@ {
                    pre.defaults.remove(av.ado_type)
                } else {
                    pre.defaults
                },
                ..pre
            },
        )
    }
}

/// The fee schedule after upserting `fees` for `ty`, in order.
pub open spec fn spec_insert_fees(
    m: Map<(Seq<char>, Seq<char>), ActionFeeView>,
    ty: Seq<char>,
    fees: Seq<ActionFeeView>,
) -> Map<(Seq<char>, Seq<char>), ActionFeeView>
    decreases fees.len(),
{
    if fees.len() == 0 {
        m
    } else {
        spec_insert_fees(m, ty, fees.drop_last()).insert((ty, fees.last().action), fees.last())
    }
}

/// The fee schedule after removing the fees of `actions` for `ty`; removing
/// an absent action is a no-op.
pub open spec fn spec_remove_actions(
    m: Map<(Seq<char>, Seq<char>), ActionFeeView>,
    ty: Seq<char>,
    actions: Seq<Seq<char>>,
) -> Map<(Seq<char>, Seq<char>), ActionFeeView>
    decreases actions.len(),
{
    if actions.len() == 0 {
        m
    } else {
        spec_remove_actions(m, ty, actions.drop_last()).remove((ty, actions.last()))
    }
}

/// The attributed publisher: the named one, or the caller.
pub open spec fn spec_publisher_or(publisher: Option<Seq<char>>, sender: Seq<char>) -> Seq<char> {
    match publisher {
        Some(p) => p,
        None => sender,
    }
}

/// The attributes a successful publication reports.
pub open spec fn spec_publish_attrs(
    ty: Seq<char>,
    version: Seq<char>,
    code_id: u64,
    publisher: Seq<char>,
) -> Seq<AttributeView> {
    seq![
        AttributeView { key: "action"@, value: "publish_ado"@ },
        AttributeView { key: "ado_type"@, value: ty + "@"@ + version },
        AttributeView { key: "code_id"@, value: crate::strutil::dec_str(code_id as nat) },
        AttributeView { key: "publisher"@, value: publisher },
    ]
}

/// The effect of publishing: the caller must be owner or operator, the type
/// and version must be well-formed with a concrete semantic version, the
/// exact (type, version) pair must not be published yet, the version must
/// compare strictly greater than the type's current latest (skipped on first
/// publication), and the code id must not be bound to a different type.
/// When all of that holds the entry set is written and the publisher and the
/// optional seed fees are recorded.
pub open spec fn spec_publish(
    pre: AdodbView,
    sender: Seq<char>,
    code_id: u64,
    ty: Seq<char>,
    version: Seq<char>,
    fees: Seq<ActionFeeView>,
    publisher: Option<Seq<char>>,
) -> Result<(AdodbView, Seq<AttributeView>), ContractErrorView> {
    if !pre.is_owner_or_operator(sender) {
        Err(ContractErrorView::Unauthorized)
    } else if !(ty.len() > 0 && !contains_char(ty, '@') && version != "latest"@ && is_semver(
        version,
    )) {
        Err(ContractErrorView::InvalidADOVersion { msg: None })
    } else if pre.codes.contains_key((ty, version)) {
        Err(ContractErrorView::InvalidADOVersion { msg: Some("Version already published"@) })
    } else if pre.latest.contains_key(ty) && is_semver(pre.latest[ty].0) && !semver_gt(
        version,
        pre.latest[ty].0,
    ) {
        Err(
            ContractErrorView::InvalidADOVersion {
                msg: Some("Version must be newer than the current version"@),
            },
        )
    } else {
        match spec_store_code_id(
            pre,
            ADOVersionView { ado_type: ty, version: Some(version) },
            code_id,
        ) {
            Err(e) => Err(e),
            Ok(mid) => {
                let pub_name = spec_publisher_or(publisher, sender);
                Ok(
                    (
                        AdodbView {
                            publishers: mid.publishers.insert(ty, pub_name),
                            fees: spec_insert_fees(mid.fees, ty, fees),
                            ..mid
                        },
                        spec_publish_attrs(ty, version, code_id, pub_name),
                    ),
                )
            },
        }
    }
}

/// The code id a lookup key resolves to: the latest-version pointer for
/// `latest` lookups, the exact versioned entry otherwise.
pub open spec fn spec_read_code_id(pre: AdodbView, av: ADOVersionView) -> Result<
    u64,
    ContractErrorView,
> {
    if av.spec_version() == "latest"@ {
        if pre.latest.contains_key(av.ado_type) {
            Ok(pre.latest[av.ado_type].1)
        } else {
            Err(ContractErrorView::NotFound)
        }
    } else {
        if pre.codes.contains_key((av.ado_type, av.spec_version())) {
            Ok(pre.codes[(av.ado_type, av.spec_version())])
        } else {
            Err(ContractErrorView::NotFound)
        }
    }
}

impl AdodbState {
    /// All stores are well-formed.
    pub open spec fn wf(self) -> bool {
        &&& self.code_id.wf()
        &&& self.version_code_id.wf()
        &&& self.latest_version.wf()
        &&& self.ado_type.wf()
        &&& self.publisher.wf()
        &&& self.action_fees.wf()
    }

    /// A fresh registry owned by `owner`, with no entries.
    pub fn new(owner: String) -> (r: AdodbState)
        ensures
            r.wf(),
            r@.owner == owner@,
            r@.operators == Seq::<Seq<char>>::empty(),
            r@.defaults == Map::<Seq<char>, u64>::empty(),
            r@.codes == Map::<(Seq<char>, Seq<char>), u64>::empty(),
            r@.latest == Map::<Seq<char>, (Seq<char>, u64)>::empty(),
            r@.types == Map::<u64, Seq<char>>::empty(),
            r@.publishers == Map::<Seq<char>, Seq<char>>::empty(),
            r@.fees == Map::<(Seq<char>, Seq<char>), ActionFeeView>::empty(),
    {
        let r = AdodbState {
            owner,
            operators: Vec::new(),
            code_id: KvStore::new(),
            version_code_id: KvStore::new(),
            latest_version: KvStore::new(),
            ado_type: KvStore::new(),
            publisher: KvStore::new(),
            action_fees: KvStore::new(),
        };
        proof {
            assert(r@.operators =~= Seq::<Seq<char>>::empty());
        }
        r
    }

    /// Whether `sender` is the contract owner.
    pub fn is_contract_owner(&self, sender: &str) -> (r: bool)
        ensures
            r == (self@.owner == sender@),
    {
        str_eq(self.owner.as_str(), sender)
    }

    /// Whether `sender` is the contract owner or a registered operator.
    pub fn is_owner_or_operator(&self, sender: &str) -> (r: bool)
        ensures
            r == self@.is_owner_or_operator(sender@),
    {
        if str_eq(self.owner.as_str(), sender) {
            return true;
        }
        let n = self.operators.len();
        let mut i: usize = 0;
        while i < n
            invariant
                0 <= i <= n,
                n == self.operators@.len(),
                forall|j: int| 0 <= j < i ==> self.operators.deep_view()[j] != sender@,
            decreases n - i,
        {
            if str_eq(self.operators[i].as_str(), sender) {
                proof {
                    assert(self@.operators[i as int] == sender@);
                }
                return true;
            }
            i = i + 1;
        }
        false
    }

    /// Replaces the operator set; contract-owner only.
    pub fn update_operators(&mut self, sender: &str, operators: Vec<String>) -> (r: Result<
        Response,
        ContractError,
    >)
        requires
            old(self).wf(),
        ensures
            final(self).wf(),
            match r {
                Ok(resp) => {
                    &&& old(self)@.owner == sender@
                    &&& final(self)@ =~~= (AdodbView { operators: operators.deep_view(), ..old(self)@ })
                    &&& resp@.messages == Seq::<SubMsgView>::empty()
                    &&& resp@.attributes =~~= seq![
                        AttributeView { key: "action"@, value: "update_operators"@ },
                    ]
                },
                Err(e) => {
                    &&& old(self)@.owner != sender@
                    &&& e@ == ContractErrorView::Unauthorized
                    &&& *final(self) == *old(self)
                },
            },
    {
        if !self.is_contract_owner(sender) {
            return Err(ContractError::Unauthorized);
        }
        self.operators = operators;
        let mut resp = Response::new();
        resp.attributes.push(Attribute::new("action", "update_operators"));
        Ok(resp)
    }

    /// Binds `code_id` to `ado_version`: writes the type binding, the
    /// latest-version pointer, the versioned entry and, where none exists
    /// yet, the unversioned default pointer.
    ///
    /// A code id's type binding is immutable once set: binding it under a
    /// different type is rejected and nothing is written.
    pub fn store_code_id(&mut self, ado_version: &ADOVersion, code_id: u64) -> (r: Result<
        (),
        ContractError,
    >)
        requires
            old(self).wf(),
        ensures
            final(self).wf(),
            match r {
                Ok(()) => {
                    &&& spec_store_code_id(old(self)@, ado_version@, code_id) is Ok
                    &&& final(self)@ =~~= spec_store_code_id(old(self)@, ado_version@, code_id)->Ok_0
                },
                Err(e) => {
                    &&& spec_store_code_id(old(self)@, ado_version@, code_id) == Err::<
                        AdodbView,
                        ContractErrorView,
                    >(e@)
                    &&& *final(self) == *old(self)
                },
            },
    {
        let ty = ado_version.get_type();
        match self.ado_type.get(&code_id) {
            Some(t) => {
                if !str_eq(t.as_str(), ty.as_str()) {
                    return Err(ContractError::Unauthorized);
                }
            },
            None => {},
        }
        let ver = ado_version.get_version();
        self.ado_type.insert(code_id, ty.clone());
        if ado_version.is_latest() {
            self.latest_version.insert(ty.clone(), VersionCode { version: ver, code_id });
            self.code_id.insert(ty, code_id);
        } else {
            self.latest_version.insert(ty.clone(), VersionCode { version: ver.clone(), code_id });
            self.version_code_id.insert((ty.clone(), ver), code_id);
            if !self.code_id.contains(&ty) {
                self.code_id.insert(ty, code_id);
            }
        }
        Ok(())
    }

    /// The code id a lookup key resolves to: the latest-version pointer for
    /// `latest` lookups, the exact versioned entry otherwise; `NotFound` when
    /// the entry is absent.
    pub fn read_code_id(&self, ado_version: &ADOVersion) -> (r: Result<u64, ContractError>)
        requires
            self.wf(),
        ensures
            match r {
                Ok(c) => spec_read_code_id(self@, ado_version@) == Ok::<u64, ContractErrorView>(c),
                Err(e) => spec_read_code_id(self@, ado_version@) == Err::<u64, ContractErrorView>(
                    e@,
                ),
            },
    {
        if ado_version.is_latest() {
            match self.read_latest_code_id(&self.get_type_of(ado_version)) {
                Ok(vc) => Ok(vc.code_id),
                Err(e) => Err(e),
            }
        } else {
            let key = (ado_version.get_type(), ado_version.get_version());
            match self.version_code_id.get(&key) {
                Some(c) => Ok(*c),
                None => Err(ContractError::NotFound),
            }
        }
    }

    fn get_type_of(&self, ado_version: &ADOVersion) -> (r: String)
        ensures
            r@ == ado_version@.ado_type,
    {
        ado_version.get_type()
    }

    /// The newest published (version, code id) of `ado_type`, or `NotFound`.
    pub fn read_latest_code_id(&self, ado_type: &String) -> (r: Result<VersionCode, ContractError>)
        requires
            self.wf(),
        ensures
            match r {
                Ok(vc) => self@.latest.contains_key(ado_type@) && self@.latest[ado_type@] == vc@,
                Err(e) => !self@.latest.contains_key(ado_type@) && e@
                    == ContractErrorView::NotFound,
            },
    {
        match self.latest_version.get(ado_type) {
            Some(vc) => Ok(VersionCode { version: vc.version.clone(), code_id: vc.code_id }),
            None => Err(ContractError::NotFound),
        }
    }

    /// Resolves a serialized lookup key (`<type>`, `<type>@<version>` or
    /// `<type>@latest`) to a code id.
    pub fn query_code_id(&self, key: &str) -> (r: Result<u64, ContractError>)
        requires
            self.wf(),
        ensures
            match r {
                Ok(c) => spec_read_code_id(self@, parse_ado_version(key@)) == Ok::<
                    u64,
                    ContractErrorView,
                >(c),
                Err(e) => spec_read_code_id(self@, parse_ado_version(key@)) == Err::<
                    u64,
                    ContractErrorView,
                >(e@),
            },
    {
        let av = ADOVersion::from_string(key);
        self.read_code_id(&av)
    }

    /// The type bound to `code_id`, if any.
    pub fn query_ado_type(&self, code_id: u64) -> (r: Option<String>)
        requires
            self.wf(),
        ensures
            match r {
                Some(t) => self@.types.contains_key(code_id) && self@.types[code_id] == t@,
                None => !self@.types.contains_key(code_id),
            },
    {
        match self.ado_type.get(&code_id) {
            Some(t) => Some(t.clone()),
            None => None,
        }
    }

    /// Publisher and latest version of `ado_type`; `NotFound` when either is
    /// missing.
    pub fn query_ado_metadata(&self, ado_type: &String) -> (r: Result<ADOMetadata, ContractError>)
        requires
            self.wf(),
        ensures
            match r {
                Ok(m) => {
                    &&& self@.publishers.contains_key(ado_type@)
                    &&& self@.latest.contains_key(ado_type@)
                    &&& m.publisher@ == self@.publishers[ado_type@]
                    &&& m.latest_version@ == self@.latest[ado_type@].0
                },
                Err(e) => {
                    &&& !(self@.publishers.contains_key(ado_type@) && self@.latest.contains_key(
                        ado_type@,
                    ))
                    &&& e@ == ContractErrorView::NotFound
                },
            },
    {
        let publisher = match self.publisher.get(ado_type) {
            Some(p) => p.clone(),
            None => {
                return Err(ContractError::NotFound);
            },
        };
        match self.latest_version.get(ado_type) {
            Some(vc) => Ok(ADOMetadata { publisher, latest_version: vc.version.clone() }),
            None => Err(ContractError::NotFound),
        }
    }

    /// The fee registered for (`ado_type`, `action`), if any.
    pub fn query_action_fee(&self, ado_type: &String, action: &String) -> (r: Option<ActionFee>)
        requires
            self.wf(),
        ensures
            match r {
                Some(f) => self@.fees.contains_key((ado_type@, action@)) && self@.fees[
                    (ado_type@, action@)
                ] == f@,
                None => !self@.fees.contains_key((ado_type@, action@)),
            },
    {
        match self.action_fees.get(&(ado_type.clone(), action.clone())) {
            Some(f) => Some(f.dup()),
            None => None,
        }
    }

    /// The fee registered for `action` of the type bound to `code_id`;
    /// `NotFound` when the code id is bound to no type.
    pub fn query_action_fee_by_code_id(&self, code_id: u64, action: &String) -> (r: Result<
        Option<ActionFee>,
        ContractError,
    >)
        requires
            self.wf(),
        ensures
            match r {
                Ok(f) => {
                    &&& self@.types.contains_key(code_id)
                    &&& match f {
                        Some(fee) => self@.fees.contains_key((self@.types[code_id], action@))
                            && self@.fees[(self@.types[code_id], action@)] == fee@,
                        None => !self@.fees.contains_key((self@.types[code_id], action@)),
                    }
                },
                Err(e) => !self@.types.contains_key(code_id) && e@ == ContractErrorView::NotFound,
            },
    {
        match self.ado_type.get(&code_id) {
            Some(t) => {
                let ty = t.clone();
                Ok(self.query_action_fee(&ty, action))
            },
            None => Err(ContractError::NotFound),
        }
    }

    /// Upserts each of `fees` for `ado_type`, in order.
    pub fn update_action_fees(&mut self, ado_type: &String, fees: &Vec<ActionFee>)
        requires
            old(self).wf(),
        ensures
            final(self).wf(),
            final(self)@ =~~= (AdodbView {
                fees: spec_insert_fees(old(self)@.fees, ado_type@, fees.deep_view()),
                ..old(self)@
            }),
    {
        let n = fees.len();
        let mut i: usize = 0;
        while i < n
            invariant
                0 <= i <= n,
                n == fees@.len(),
                self.action_fees.wf(),
                self.action_fees.contents() =~= spec_insert_fees(
                    old(self)@.fees,
                    ado_type@,
                    fees.deep_view().take(i as int),
                ),
                self.owner == old(self).owner,
                self.operators == old(self).operators,
                self.code_id == old(self).code_id,
                self.version_code_id == old(self).version_code_id,
                self.latest_version == old(self).latest_version,
                self.ado_type == old(self).ado_type,
                self.publisher == old(self).publisher,
            decreases n - i,
        {
            let fee = fees[i].dup();
            self.action_fees.insert((ado_type.clone(), fees[i].action.clone()), fee);
            proof {
                assert(fees.deep_view().take(i + 1).drop_last() =~= fees.deep_view().take(i as int));
                assert(fees.deep_view().take(i + 1).last() == fees@[i as int].deep_view());
            }
            i = i + 1;
        }
        proof {
            assert(fees.deep_view().take(n as int) =~= fees.deep_view());
        }
    }

    /// Upserts each of `fees` for `ado_type` (the seeding path of a
    /// publication).
    pub fn save_action_fees(&mut self, ado_type: &String, fees: &Vec<ActionFee>)
        requires
            old(self).wf(),
        ensures
            final(self).wf(),
            final(self)@ =~~= (AdodbView {
                fees: spec_insert_fees(old(self)@.fees, ado_type@, fees.deep_view()),
                ..old(self)@
            }),
    {
        self.update_action_fees(ado_type, fees);
    }

    /// Removes the fee of each of `fees`' actions for `ado_type`; absent
    /// actions are a no-op.
    pub fn remove_action_fees(&mut self, ado_type: &String, fees: &Vec<ActionFee>)
        requires
            old(self).wf(),
        ensures
            final(self).wf(),
            final(self)@ =~~= (AdodbView {
                fees: spec_remove_actions(
                    old(self)@.fees,
                    ado_type@,
                    fees.deep_view().map_values(|f: ActionFeeView| f.action),
                ),
                ..old(self)@
            }),
    {
        let ghost acts = fees.deep_view().map_values(|f: ActionFeeView| f.action);
        let n = fees.len();
        let mut i: usize = 0;
        while i < n
            invariant
                0 <= i <= n,
                n == fees@.len(),
                acts == fees.deep_view().map_values(|f: ActionFeeView| f.action),
                self.action_fees.wf(),
                self.action_fees.contents() =~= spec_remove_actions(
                    old(self)@.fees,
                    ado_type@,
                    acts.take(i as int),
                ),
                self.owner == old(self).owner,
                self.operators == old(self).operators,
                self.code_id == old(self).code_id,
                self.version_code_id == old(self).version_code_id,
                self.latest_version == old(self).latest_version,
                self.ado_type == old(self).ado_type,
                self.publisher == old(self).publisher,
            decreases n - i,
        {
            self.action_fees.remove(&(ado_type.clone(), fees[i].action.clone()));
            proof {
                assert(acts.take(i + 1).drop_last() =~= acts.take(i as int));
                assert(acts.take(i + 1).last() == fees@[i as int].deep_view().action);
            }
            i = i + 1;
        }
        proof {
            assert(acts.take(n as int) =~= acts);
        }
    }

    /// Binds a serialized key to `code_id`; owner or operator only.
    pub fn add_update_code_id(&mut self, sender: &str, code_id_key: &String, code_id: u64) -> (r:
        Result<Response, ContractError>)
        requires
            old(self).wf(),
        ensures
            final(self).wf(),
            match r {
                Ok(resp) => {
                    &&& old(self)@.is_owner_or_operator(sender@)
                    &&& spec_store_code_id(old(self)@, parse_ado_version(code_id_key@), code_id)
                        is Ok
                    &&& final(self)@ =~~= spec_store_code_id(
                        old(self)@,
                        parse_ado_version(code_id_key@),
                        code_id,
                    )->Ok_0
                    &&& resp@.messages == Seq::<SubMsgView>::empty()
                    &&& resp@.attributes =~~= seq![
                        AttributeView { key: "action"@, value: "add_update_code_id"@ },
                        AttributeView { key: "code_id_key"@, value: code_id_key@ },
                        AttributeView {
                            key: "code_id"@,
                            value: crate::strutil::dec_str(code_id as nat),
                        },
                    ]
                },
                Err(e) => {
                    &&& *final(self) == *old(self)
                    &&& if !old(self)@.is_owner_or_operator(sender@) {
                        e@ == ContractErrorView::Unauthorized
                    } else {
                        spec_store_code_id(old(self)@, parse_ado_version(code_id_key@), code_id)
                            == Err::<AdodbView, ContractErrorView>(e@)
                    }
                },
            },
    {
        if !self.is_owner_or_operator(sender) {
            return Err(ContractError::Unauthorized);
        }
        let av = ADOVersion::from_string(code_id_key.as_str());
        match self.store_code_id(&av, code_id) {
            Ok(()) => {},
            Err(e) => {
                return Err(e);
            },
        }
        let mut resp = Response::new();
        resp.attributes.push(Attribute::new("action", "add_update_code_id"));
        resp.attributes.push(Attribute::new("code_id_key", code_id_key.as_str()));
        resp.attributes.push(Attribute {
            key: "code_id".to_owned(),
            value: crate::strutil::u64_to_string(code_id),
        });
        Ok(resp)
    }

    /// Publishes a (type, version) pair under `code_id`, recording the
    /// publisher and the optional seed fees; see [`spec_publish`] for the
    /// preconditions it enforces.
    pub fn publish(
        &mut self,
        sender: &str,
        code_id: u64,
        ado_type: String,
        version: String,
        action_fees: Option<Vec<ActionFee>>,
        publisher: Option<String>,
    ) -> (r: Result<Response, ContractError>)
        requires
            old(self).wf(),
        ensures
            final(self).wf(),
            ({
                let fees_v = match action_fees {
                    Some(ref f) => f.deep_view(),
                    None => Seq::<ActionFeeView>::empty(),
                };
                let pub_v = match publisher {
                    Some(ref p) => Some(p@),
                    None => None,
                };
                let expect = spec_publish(
                    old(self)@,
                    sender@,
                    code_id,
                    ado_type@,
                    version@,
                    fees_v,
                    pub_v,
                );
                match r {
                    Ok(resp) => {
                        &&& expect is Ok
                        &&& final(self)@ =~~= expect->Ok_0.0
                        &&& resp@.messages == Seq::<SubMsgView>::empty()
                        &&& resp@.attributes =~~= expect->Ok_0.1
                    },
                    Err(e) => {
                        &&& expect == Err::<(AdodbView, Seq<AttributeView>), ContractErrorView>(e@)
                        &&& *final(self) == *old(self)
                    },
                }
            }),
    {
        if !self.is_owner_or_operator(sender) {
            return Err(ContractError::Unauthorized);
        }
        let av = ADOVersion::from_type(ado_type.as_str()).with_version(version.clone());
        if !av.validate() || av.is_latest() {
            return Err(ContractError::InvalidADOVersion { msg: None });
        }
        if self.version_code_id.contains(&(ado_type.clone(), version.clone())) {
            return Err(
                ContractError::InvalidADOVersion {
                    msg: Some("Version already published".to_owned()),
                },
            );
        }
        let current: Option<String> = match self.latest_version.get(&ado_type) {
            Some(vc) => Some(vc.version.clone()),
            None => None,
        };
        match current {
            Some(cur) => {
                if semver_is_valid(cur.as_str()) && !semver_newer(version.as_str(), cur.as_str()) {
                    return Err(
                        ContractError::InvalidADOVersion {
                            msg: Some("Version must be newer than the current version".to_owned()),
                        },
                    );
                }
            },
            None => {},
        }
        match self.store_code_id(&av, code_id) {
            Ok(()) => {},
            Err(e) => {
                return Err(e);
            },
        }
        let pub_name = match publisher {
            Some(p) => p,
            None => sender.to_owned(),
        };
        self.publisher.insert(ado_type.clone(), pub_name.clone());
        match action_fees {
            Some(ref fees) => {
                self.update_action_fees(&ado_type, fees);
            },
            None => {},
        }
        let mut resp = Response::new();
        resp.attributes.push(Attribute::new("action", "publish_ado"));
        resp.attributes.push(Attribute { key: "ado_type".to_owned(), value: av.into_string() });
        resp.attributes.push(Attribute {
            key: "code_id".to_owned(),
            value: crate::strutil::u64_to_string(code_id),
        });
        resp.attributes.push(Attribute { key: "publisher".to_owned(), value: pub_name });
        Ok(resp)
    }

    /// Unbinds `code_id` from `ado_version`: drops the type binding, the
    /// latest-version pointer and the entry the key names; rejected when the
    /// code id is bound to a different type.
    pub fn remove_code_id(&mut self, ado_version: &ADOVersion, code_id: u64) -> (r: Result<
        (),
        ContractError,
    >)
        requires
            old(self).wf(),
        ensures
            final(self).wf(),
            match r {
                Ok(()) => {
                    &&& spec_remove_code_id(old(self)@, ado_version@, code_id) is Ok
                    &&& final(self)@ =~~= spec_remove_code_id(old(self)@, ado_version@, code_id)->Ok_0
                },
                Err(e) => {
                    &&& spec_remove_code_id(old(self)@, ado_version@, code_id) == Err::<
                        AdodbView,
                        ContractErrorView,
                    >(e@)
                    &&& *final(self) == *old(self)
                },
            },
    {
        let ty = ado_version.get_type();
        match self.ado_type.get(&code_id) {
            Some(t) => {
                if !str_eq(t.as_str(), ty.as_str()) {
                    return Err(ContractError::Unauthorized);
                }
            },
            None => {},
        }
        self.ado_type.remove(&code_id);
        self.latest_version.remove(&ty);
        if ado_version.is_latest() {
            self.code_id.remove(&ty);
        } else {
            self.version_code_id.remove(&(ty, ado_version.get_version()));
        }
        Ok(())
    }

    /// Upserts the fees of `action_fees` for `ado_type`; contract-owner only,
    /// and the type must already have a registered default code id.
    pub fn execute_update_action_fees(
        &mut self,
        sender: &str,
        ado_type: String,
        action_fees: &Vec<ActionFee>,
    ) -> (r: Result<Response, ContractError>)
        requires
            old(self).wf(),
        ensures
            final(self).wf(),
            match r {
                Ok(resp) => {
                    &&& old(self)@.owner == sender@
                    &&& old(self)@.defaults.contains_key(ado_type@)
                    &&& final(self)@ =~~= (AdodbView {
                        fees: spec_insert_fees(old(self)@.fees, ado_type@, action_fees.deep_view()),
                        ..old(self)@
                    })
                    &&& resp@.messages == Seq::<SubMsgView>::empty()
                    &&& resp@.attributes =~~= seq![
                        AttributeView { key: "action"@, value: "update_action_fees"@ },
                        AttributeView { key: "ado_type"@, value: ado_type@ },
                    ]
                },
                Err(e) => {
                    &&& *final(self) == *old(self)
                    &&& if old(self)@.owner != sender@ {
                        e@ == ContractErrorView::Unauthorized
                    } else {
                        !old(self)@.defaults.contains_key(ado_type@) && e@
                            == (ContractErrorView::InvalidADOVersion {
                            msg: Some("ADO type does not exist"@),
                        })
                    }
                },
            },
    {
        if !self.is_contract_owner(sender) {
            return Err(ContractError::Unauthorized);
        }
        if !self.code_id.contains(&ado_type) {
            return Err(
                ContractError::InvalidADOVersion { msg: Some("ADO type does not exist".to_owned()) },
            );
        }
        self.update_action_fees(&ado_type, action_fees);
        let mut resp = Response::new();
        resp.attributes.push(Attribute::new("action", "update_action_fees"));
        resp.attributes.push(Attribute { key: "ado_type".to_owned(), value: ado_type });
        Ok(resp)
    }

    /// Removes the fee entries of `actions` for `ado_type`; contract-owner
    /// only, and the type must already have a registered default code id.
    /// Removing an action that has no fee is a no-op, not an error.
    pub fn execute_remove_actions(
        &mut self,
        sender: &str,
        ado_type: String,
        actions: &Vec<String>,
    ) -> (r: Result<Response, ContractError>)
        requires
            old(self).wf(),
        ensures
            final(self).wf(),
            match r {
                Ok(resp) => {
                    &&& old(self)@.owner == sender@
                    &&& old(self)@.defaults.contains_key(ado_type@)
                    &&& final(self)@ =~~= (AdodbView {
                        fees: spec_remove_actions(old(self)@.fees, ado_type@, actions.deep_view()),
                        ..old(self)@
                    })
                    &&& resp@.messages == Seq::<SubMsgView>::empty()
                    &&& resp@.attributes =~~= seq![
                        AttributeView { key: "action"@, value: "remove_actions"@ },
                        AttributeView { key: "ado_type"@, value: ado_type@ },
                    ] + actions.deep_view().map_values(
                        |a: Seq<char>| AttributeView { key: "action_fee_removed"@, value: a },
                    )
                },
                Err(e) => {
                    &&& *final(self) == *old(self)
                    &&& if old(self)@.owner != sender@ {
                        e@ == ContractErrorView::Unauthorized
                    } else {
                        !old(self)@.defaults.contains_key(ado_type@) && e@
                            == (ContractErrorView::InvalidADOVersion {
                            msg: Some("ADO type does not exist"@),
                        })
                    }
                },
            },
    {
        if !self.is_contract_owner(sender) {
            return Err(ContractError::Unauthorized);
        }
        if !self.code_id.contains(&ado_type) {
            return Err(
                ContractError::InvalidADOVersion { msg: Some("ADO type does not exist".to_owned()) },
            );
        }
        let ghost acts = actions.deep_view();
        let ghost removed_attrs = actions.deep_view().map_values(
            |a: Seq<char>| AttributeView { key: "action_fee_removed"@, value: a },
        );
        let mut resp = Response::new();
        resp.attributes.push(Attribute::new("action", "remove_actions"));
        resp.attributes.push(Attribute { key: "ado_type".to_owned(), value: ado_type.clone() });
        let ghost base = resp.attributes.deep_view();
        let n = actions.len();
        let mut i: usize = 0;
        while i < n
            invariant
                0 <= i <= n,
                n == actions@.len(),
                acts == actions.deep_view(),
                removed_attrs == acts.map_values(
                    |a: Seq<char>| AttributeView { key: "action_fee_removed"@, value: a },
                ),
                base.len() == 2,
                self.action_fees.wf(),
                self.action_fees.contents() =~= spec_remove_actions(
                    old(self)@.fees,
                    ado_type@,
                    acts.take(i as int),
                ),
                resp.attributes.deep_view() =~= base + removed_attrs.take(i as int),
                resp.messages@.len() == 0,
                self.owner == old(self).owner,
                self.operators == old(self).operators,
                self.code_id == old(self).code_id,
                self.version_code_id == old(self).version_code_id,
                self.latest_version == old(self).latest_version,
                self.ado_type == old(self).ado_type,
                self.publisher == old(self).publisher,
            decreases n - i,
        {
            self.action_fees.remove(&(ado_type.clone(), actions[i].clone()));
            let ghost prev = resp.attributes;
            let removed = Attribute {
                key: "action_fee_removed".to_owned(),
                value: actions[i].clone(),
            };
            let ghost pushed = removed;
            resp.attributes.push(removed);
            proof {
                crate::types::lemma_vec_deep_view_push(prev, resp.attributes, pushed);
                assert(acts.take(i + 1).drop_last() =~= acts.take(i as int));
                assert(acts.take(i + 1).last() == actions@[i as int].deep_view());
                assert(removed_attrs.take(i + 1) =~= removed_attrs.take(i as int).push(
                    removed_attrs[i as int],
                ));
                assert(resp.attributes.deep_view() =~= base + removed_attrs.take(i + 1));
            }
            i = i + 1;
        }
        proof {
            assert(acts.take(n as int) =~= acts);
            assert(removed_attrs.take(n as int) =~= removed_attrs);
            assert(resp@.messages =~= Seq::<SubMsgView>::empty());
        }
        Ok(resp)
    }

    /// Records `publisher` as the attribution of `ado_type`; contract-owner
    /// only, and the type must already have a registered default code id.
    pub fn execute_update_publisher(
        &mut self,
        sender: &str,
        ado_type: String,
        publisher: String,
    ) -> (r: Result<Response, ContractError>)
        requires
            old(self).wf(),
        ensures
            final(self).wf(),
            match r {
                Ok(resp) => {
                    &&& old(self)@.owner == sender@
                    &&& old(self)@.defaults.contains_key(ado_type@)
                    &&& final(self)@ =~~= (AdodbView {
                        publishers: old(self)@.publishers.insert(ado_type@, publisher@),
                        ..old(self)@
                    })
                    &&& resp@.messages == Seq::<SubMsgView>::empty()
                    &&& resp@.attributes =~~= seq![
                        AttributeView { key: "action"@, value: "update_publisher"@ },
                        AttributeView { key: "ado_type"@, value: ado_type@ },
                        AttributeView { key: "publisher"@, value: publisher@ },
                    ]
                },
                Err(e) => {
                    &&& *final(self) == *old(self)
                    &&& if old(self)@.owner != sender@ {
                        e@ == ContractErrorView::Unauthorized
                    } else {
                        !old(self)@.defaults.contains_key(ado_type@) && e@
                            == (ContractErrorView::InvalidADOVersion {
                            msg: Some("ADO type does not exist"@),
                        })
                    }
                },
            },
    {
        if !self.is_contract_owner(sender) {
            return Err(ContractError::Unauthorized);
        }
        if !self.code_id.contains(&ado_type) {
            return Err(
                ContractError::InvalidADOVersion { msg: Some("ADO type does not exist".to_owned()) },
            );
        }
        self.publisher.insert(ado_type.clone(), publisher.clone());
        let mut resp = Response::new();
        resp.attributes.push(Attribute::new("action", "update_publisher"));
        resp.attributes.push(Attribute { key: "ado_type".to_owned(), value: ado_type });
        resp.attributes.push(Attribute { key: "publisher".to_owned(), value: publisher });
        Ok(resp)
    }
}

/// The delimiter splits a serialized `<type>@<version>` key back into its two
/// parts when the type holds no delimiter itself.
pub proof fn lemma_parse_serialized_key(ty: Seq<char>, version: Seq<char>)
    requires
        !contains_char(ty, '@'),
    ensures
        parse_ado_version(ty + "@"@ + version) == (ADOVersionView {
            ado_type: ty,
            version: Some(version),
        }),
{
    reveal_strlit("@");
    let s = ty + "@"@ + version;
    crate::strutil::lemma_find_char_props(ty, '@');
    assert(s[ty.len() as int] == '@');
    assert forall|j: int| 0 <= j < ty.len() implies s[j] != '@' by {
        assert(s[j] == ty[j]);
    }
    crate::strutil::lemma_find_char_some(s, '@', ty.len() as int);
    assert(s.subrange(0, ty.len() as int) =~= ty);
    assert(s.subrange(ty.len() as int + 1, s.len() as int) =~= version);
}

/// After a successful publication of (`ty`, `version`) under `code_id`, the
/// versioned lookup returns exactly `code_id` (under the serialized
/// `<type>@<version>` key too), the code id is bound to `ty`, and the type's
/// latest-version pointer names the published pair, so an unqualified lookup
/// of the type resolves there as well.
pub proof fn lemma_publish_then_resolve(
    pre: AdodbView,
    sender: Seq<char>,
    code_id: u64,
    ty: Seq<char>,
    version: Seq<char>,
    fees: Seq<ActionFeeView>,
    publisher: Option<Seq<char>>,
)
    requires
        spec_publish(pre, sender, code_id, ty, version, fees, publisher) is Ok,
    ensures
        ({
            let post = spec_publish(pre, sender, code_id, ty, version, fees, publisher)->Ok_0.0;
            &&& spec_read_code_id(
                post,
                ADOVersionView { ado_type: ty, version: Some(version) },
            ) == Ok::<u64, ContractErrorView>(code_id)
            &&& spec_read_code_id(post, parse_ado_version(ty + "@"@ + version)) == Ok::<
                u64,
                ContractErrorView,
            >(code_id)
            &&& spec_read_code_id(post, ADOVersionView { ado_type: ty, version: None }) == Ok::<
                u64,
                ContractErrorView,
            >(code_id)
            &&& post.types.contains_key(code_id) && post.types[code_id] == ty
            &&& post.latest.contains_key(ty) && post.latest[ty] == (version, code_id)
        }),
{
    let post = spec_publish(pre, sender, code_id, ty, version, fees, publisher)->Ok_0.0;
    let mid = spec_store_code_id(
        pre,
        ADOVersionView { ado_type: ty, version: Some(version) },
        code_id,
    )->Ok_0;
    assert(post.codes == mid.codes);
    assert((ADOVersionView { ado_type: ty, version: Some(version) }).spec_version() == version);
    lemma_parse_serialized_key(ty, version);
}

/// A published (type, version) pair cannot be published again: whatever code
/// id, fees or publisher are supplied, a second publication of the same pair
/// is rejected as an invalid component version.
pub proof fn lemma_republish_rejected(
    pre: AdodbView,
    sender: Seq<char>,
    code_id: u64,
    ty: Seq<char>,
    version: Seq<char>,
    fees: Seq<ActionFeeView>,
    publisher: Option<Seq<char>>,
    sender2: Seq<char>,
    code_id2: u64,
    fees2: Seq<ActionFeeView>,
    publisher2: Option<Seq<char>>,
)
    requires
        spec_publish(pre, sender, code_id, ty, version, fees, publisher) is Ok,
        ({
            let post = spec_publish(pre, sender, code_id, ty, version, fees, publisher)->Ok_0.0;
            post.is_owner_or_operator(sender2)
        }),
    ensures
        ({
            let post = spec_publish(pre, sender, code_id, ty, version, fees, publisher)->Ok_0.0;
            spec_publish(post, sender2, code_id2, ty, version, fees2, publisher2) == Err::<
                (AdodbView, Seq<AttributeView>),
                ContractErrorView,
            >(ContractErrorView::InvalidADOVersion { msg: Some("Version already published"@) })
        }),
{
    let post = spec_publish(pre, sender, code_id, ty, version, fees, publisher)->Ok_0.0;
    assert(post.codes.contains_key((ty, version)));
}

/// A code id's type binding is immutable: whatever a successful publication
/// writes, every code id that was bound before keeps the type it had.
pub proof fn lemma_type_binding_immutable(
    pre: AdodbView,
    sender: Seq<char>,
    code_id: u64,
    ty: Seq<char>,
    version: Seq<char>,
    fees: Seq<ActionFeeView>,
    publisher: Option<Seq<char>>,
    bound: u64,
)
    requires
        spec_publish(pre, sender, code_id, ty, version, fees, publisher) is Ok,
        pre.types.contains_key(bound),
    ensures
        ({
            let post = spec_publish(pre, sender, code_id, ty, version, fees, publisher)->Ok_0.0;
            post.types.contains_key(bound) && post.types[bound] == pre.types[bound]
        }),
{
}

/// A version that does not compare strictly greater than the type's current
/// latest is rejected, even when it is well-formed and not yet published.
pub proof fn lemma_non_newer_rejected(
    pre: AdodbView,
    sender: Seq<char>,
    code_id: u64,
    ty: Seq<char>,
    version: Seq<char>,
    fees: Seq<ActionFeeView>,
    publisher: Option<Seq<char>>,
)
    requires
        pre.is_owner_or_operator(sender),
        ty.len() > 0,
        !crate::strutil::contains_char(ty, '@'),
        version != "latest"@,
        is_semver(version),
        !pre.codes.contains_key((ty, version)),
        pre.latest.contains_key(ty),
        is_semver(pre.latest[ty].0),
        !semver_gt(version, pre.latest[ty].0),
    ensures
        spec_publish(pre, sender, code_id, ty, version, fees, publisher) == Err::<
            (AdodbView, Seq<AttributeView>),
            ContractErrorView,
        >(
            ContractErrorView::InvalidADOVersion {
                msg: Some("Version must be newer than the current version"@),
            },
        ),
{
}

} // verus!
