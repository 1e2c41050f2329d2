//! The fee ledger: per-holder balances keyed by asset denomination, deposits,
//! layered fee settlement and withdrawals.
//!
//! Fee settlement pulls the schedule from the registry by the calling
//! contract's code id and drains the payee balance first, then the calling
//! contract's, then the application's; payment is all-or-nothing.

use vstd::prelude::*;

use crate::adodb::AdodbState;
use crate::error::{ContractError, ContractErrorView};
use crate::kv::KvStore;
use crate::strutil::str_eq;
use crate::types::{Attribute, AttributeView, Coin, CoinView, CosmosMsg, Response, SubMsg, SubMsgView};

verus! {

/// The balance map: (holder, asset) to amount.
pub type BalanceMap = Map<(Seq<char>, Seq<char>), u128>;

/// The balance a holder has in one asset; zero when no entry exists.
pub open spec fn bal_of(m: BalanceMap, holder: Seq<char>, asset: Seq<char>) -> u128 {
    if m.contains_key((holder, asset)) {
        m[(holder, asset)]
    } else {
        0
    }
}

/// The balances after crediting one coin to `holder`; `None` when the credit
/// would not fit the balance type.
pub open spec fn spec_credit(m: BalanceMap, holder: Seq<char>, coin: CoinView) -> Option<
    BalanceMap,
> {
    if bal_of(m, holder, coin.denom) + coin.amount > u128::MAX {
        None
    } else {
        Some(m.insert((holder, coin.denom), (bal_of(m, holder, coin.denom) + coin.amount) as u128))
    }
}

/// The balances after crediting every coin of `funds` to `holder`, in order.
pub open spec fn spec_credit_all(m: BalanceMap, holder: Seq<char>, funds: Seq<CoinView>) -> Option<
    BalanceMap,
>
    decreases funds.len(),
{
    if funds.len() == 0 {
        Some(m)
    } else {
        match spec_credit_all(m, holder, funds.drop_last()) {
            Some(m2) => spec_credit(m2, holder, funds.last()),
            None => None,
        }
    }
}

/// One settlement layer: `holder` covers what its balance allows; the result
/// is the balances after the debit and the still-uncovered remainder.
pub open spec fn spec_spend(m: BalanceMap, holder: Seq<char>, asset: Seq<char>, amount: u128) -> (
    BalanceMap,
    u128,
) {
    let b = bal_of(m, holder, asset);
    let s = if b < amount {
        b
    } else {
        amount
    };
    (m.insert((holder, asset), (b - s) as u128), (amount - s) as u128)
}

/// The fixed settlement order: the payee balance first, then the calling
/// contract's, then (when one is named) the application's.
pub open spec fn spec_drain(
    m: BalanceMap,
    payee: Seq<char>,
    sender: Seq<char>,
    app: Option<Seq<char>>,
    asset: Seq<char>,
    amount: u128,
) -> (BalanceMap, u128) {
    let step1 = spec_spend(m, payee, asset, amount);
    let step2 = spec_spend(step1.0, sender, asset, step1.1);
    match app {
        Some(a) => spec_spend(step2.0, a, asset, step2.1),
        None => step2,
    }
}

/// The fee a payment settles, as the registry resolves it for the calling
/// contract: the caller must be a known contract whose code id is bound to a
/// type, the type must have a fee for the action, and the fee's receiver
/// defaults to the type's registered publisher.
pub open spec fn spec_resolve_fee(
    reg: crate::adodb::AdodbView,
    infos: Map<Seq<char>, u64>,
    sender: Seq<char>,
    action: Seq<char>,
) -> Result<(crate::adodb::ActionFeeView, Seq<char>), ContractErrorView> {
    if !infos.contains_key(sender) {
        Err(ContractErrorView::InvalidAddress)
    } else if !reg.types.contains_key(infos[sender]) {
        Err(ContractErrorView::NotFound)
    } else {
        let ty = reg.types[infos[sender]];
        if !reg.fees.contains_key((ty, action)) {
            Err(ContractErrorView::NotFound)
        } else {
            let fee = reg.fees[(ty, action)];
            match fee.receiver {
                Some(rcv) => Ok((fee, rcv)),
                None => if reg.publishers.contains_key(ty) {
                    Ok((fee, reg.publishers[ty]))
                } else {
                    Err(ContractErrorView::NotFound)
                },
            }
        }
    }
}

/// The whole effect of a fee payment on the balances: resolution, layered
/// settlement and, when the fee is fully covered, crediting the full amount
/// to the receiver; a shortfall is rejected with nothing changed.
pub open spec fn spec_pay_fee(
    reg: crate::adodb::AdodbView,
    infos: Map<Seq<char>, u64>,
    bal: BalanceMap,
    sender: Seq<char>,
    app: Option<Seq<char>>,
    payee: Seq<char>,
    action: Seq<char>,
) -> Result<BalanceMap, ContractErrorView> {
    match spec_resolve_fee(reg, infos, sender, action) {
        Err(e) => Err(e),
        Ok((fee, receiver)) => {
            let drained = spec_drain(bal, payee, sender, app, fee.asset, fee.amount);
            if drained.1 > 0 {
                Err(ContractErrorView::InsufficientFunds)
            } else {
                Ok(
                    drained.0.insert(
                        (receiver, fee.asset),
                        (bal_of(drained.0, receiver, fee.asset) + fee.amount) as u128,
                    ),
                )
            }
        },
    }
}

/// Whether the receiver credit of a fully covered fee payment fits the
/// balance type (the one machine limit a payment is subject to).
pub open spec fn spec_pay_fee_fits(
    reg: crate::adodb::AdodbView,
    infos: Map<Seq<char>, u64>,
    bal: BalanceMap,
    sender: Seq<char>,
    app: Option<Seq<char>>,
    payee: Seq<char>,
    action: Seq<char>,
) -> bool {
    match spec_resolve_fee(reg, infos, sender, action) {
        Err(_) => true,
        Ok((fee, receiver)) => {
            let drained = spec_drain(bal, payee, sender, app, fee.asset, fee.amount);
            drained.1 == 0 ==> bal_of(drained.0, receiver, fee.asset) + fee.amount <= u128::MAX
        },
    }
}

/// The fee ledger state.
pub struct EconomicsState {
    pub balances: KvStore<(String, String), u128>,
}

impl EconomicsState {
    /// The store is well-formed.
    pub open spec fn wf(self) -> bool {
        self.balances.wf()
    }

    /// The balance map this ledger holds.
    pub open spec fn bal(self) -> BalanceMap {
        self.balances.contents()
    }

    /// A fresh ledger with no balances.
    pub fn new() -> (r: EconomicsState)
        ensures
            r.wf(),
            r.bal() == Map::<(Seq<char>, Seq<char>), u128>::empty(),
    {
        EconomicsState { balances: KvStore::new() }
    }

    /// The balance `holder` has in `asset` (zero when no entry exists).
    pub fn balance(&self, holder: &String, asset: &String) -> (r: u128)
        requires
            self.wf(),
        ensures
            r == bal_of(self.bal(), holder@, asset@),
    {
        match self.balances.get(&(holder.clone(), asset.clone())) {
            Some(b) => *b,
            None => 0,
        }
    }

    /// Sets the balance `holder` has in `asset`.
    pub fn set_balance(&mut self, holder: &String, asset: &String, amount: u128)
        requires
            old(self).wf(),
        ensures
            final(self).wf(),
            final(self).bal() =~= old(self).bal().insert((holder@, asset@), amount),
    {
        self.balances.insert((holder.clone(), asset.clone()), amount);
    }

    /// Credits every supplied coin to the named holder (the caller when none
    /// is named); an empty deposit is rejected.
    pub fn execute_deposit(&mut self, sender: &str, address: Option<String>, funds: &Vec<Coin>) -> (r:
        Result<Response, ContractError>)
        requires
            old(self).wf(),
            spec_credit_all(
                old(self).bal(),
                match address {
                    Some(ref a) => a@,
                    None => sender@,
                },
                funds.deep_view(),
            ) is Some,
        ensures
            final(self).wf(),
            ({
                let holder = match address {
                    Some(ref a) => a@,
                    None => sender@,
                };
                match r {
                    Ok(resp) => {
                        &&& funds@.len() > 0
                        &&& final(self).bal() =~= spec_credit_all(
                            old(self).bal(),
                            holder,
                            funds.deep_view(),
                        )->Some_0
                        &&& resp@.messages == Seq::<SubMsgView>::empty()
                        &&& resp@.attributes =~~= seq![
                            AttributeView { key: "action"@, value: "deposit"@ },
                            AttributeView { key: "depositee"@, value: holder },
                        ]
                    },
                    Err(e) => {
                        &&& funds@.len() == 0
                        &&& e@ == ContractErrorView::InsufficientFunds
                        &&& *final(self) == *old(self)
                    },
                }
            }),
    {
        if funds.len() == 0 {
            return Err(ContractError::InsufficientFunds);
        }
        let holder: String = match address {
            Some(a) => a,
            None => sender.to_owned(),
        };
        let n = funds.len();
        let mut i: usize = 0;
        while i < n
            invariant
                0 <= i <= n,
                n == funds@.len(),
                self.wf(),
                spec_credit_all(old(self).bal(), holder@, funds.deep_view()) is Some,
                spec_credit_all(old(self).bal(), holder@, funds.deep_view().take(i as int))
                    is Some,
                self.bal() =~= spec_credit_all(
                    old(self).bal(),
                    holder@,
                    funds.deep_view().take(i as int),
                )->Some_0,
            decreases n - i,
        {
            proof {
                lemma_credit_all_prefix(old(self).bal(), holder@, funds.deep_view(), i + 1);
                assert(funds.deep_view().take(i + 1).drop_last() =~= funds.deep_view().take(
                    i as int,
                ));
                assert(funds.deep_view().take(i + 1).last() == funds@[i as int].deep_view());
            }
            let prev = self.balance(&holder, &funds[i].denom);
            self.balances.insert(
                (holder.clone(), funds[i].denom.clone()),
                prev + funds[i].amount,
            );
            i = i + 1;
        }
        proof {
            assert(funds.deep_view().take(n as int) =~= funds.deep_view());
        }
        let mut resp = Response::new();
        resp.attributes.push(Attribute::new("action", "deposit"));
        resp.attributes.push(Attribute { key: "depositee".to_owned(), value: holder });
        Ok(resp)
    }

    /// One settlement layer: debits what `address`' balance covers and
    /// returns the still-uncovered remainder (never driving the balance
    /// negative).
    pub fn spend_balance(&mut self, address: &String, asset: String, amount: u128) -> (r: Result<
        u128,
        ContractError,
    >)
        requires
            old(self).wf(),
        ensures
            final(self).wf(),
            r is Ok,
            final(self).bal() =~= spec_spend(old(self).bal(), address@, asset@, amount).0,
            r->Ok_0 == spec_spend(old(self).bal(), address@, asset@, amount).1,
    {
        let b = self.balance(address, &asset);
        let spent = if b < amount {
            b
        } else {
            amount
        };
        self.balances.insert((address.clone(), asset), b - spent);
        Ok(amount - spent)
    }

    /// Settles the fee the registry schedules for `action` of the calling
    /// contract's type: drains `payee`, then the calling contract, then the
    /// named application balance, and credits the full amount to the fee's
    /// receiver (the type's publisher when the fee names none). A shortfall
    /// after all layers rejects the payment with every balance unchanged.
    pub fn execute_pay_fee(
        &mut self,
        sender: &str,
        registry: &AdodbState,
        contract_infos: &KvStore<String, u64>,
        app_contract: Option<String>,
        payee: &String,
        action: &String,
    ) -> (r: Result<Response, ContractError>)
        requires
            old(self).wf(),
            registry.wf(),
            contract_infos.wf(),
            spec_pay_fee_fits(
                registry@,
                contract_infos.contents(),
                old(self).bal(),
                sender@,
                match app_contract {
                    Some(ref a) => Some(a@),
                    None => None,
                },
                payee@,
                action@,
            ),
        ensures
            final(self).wf(),
            ({
                let app = match app_contract {
                    Some(ref a) => Some(a@),
                    None => None,
                };
                let expect = spec_pay_fee(
                    registry@,
                    contract_infos.contents(),
                    old(self).bal(),
                    sender@,
                    app,
                    payee@,
                    action@,
                );
                match r {
                    Ok(resp) => {
                        &&& expect is Ok
                        &&& final(self).bal() =~= expect->Ok_0
                        &&& resp@.messages == Seq::<SubMsgView>::empty()
                        &&& resp@.attributes =~~= seq![
                            AttributeView { key: "action"@, value: "pay_fee"@ },
                            AttributeView { key: "payee"@, value: payee@ },
                        ]
                    },
                    Err(e) => {
                        &&& expect == Err::<BalanceMap, ContractErrorView>(e@)
                        &&& *final(self) == *old(self)
                    },
                }
            }),
    {
        let code_id: u64 = match contract_infos.get(&sender.to_owned()) {
            Some(c) => *c,
            None => {
                return Err(ContractError::InvalidAddress);
            },
        };
        let ty: String = match registry.query_ado_type(code_id) {
            Some(t) => t,
            None => {
                return Err(ContractError::NotFound);
            },
        };
        let fee = match registry.query_action_fee(&ty, action) {
            Some(f) => f,
            None => {
                return Err(ContractError::NotFound);
            },
        };
        let receiver: String = match fee.receiver {
            Some(rcv) => rcv,
            None => {
                match registry.publisher.get(&ty) {
                    Some(p) => p.clone(),
                    None => {
                        return Err(ContractError::NotFound);
                    },
                }
            },
        };
        let asset = fee.asset;
        let amount = fee.amount;

        // Read all three layers against the sequentially debited balances,
        // so that a holder standing in two layers is not counted twice.
        let b1 = self.balance(payee, &asset);
        let s1 = if b1 < amount {
            b1
        } else {
            amount
        };
        let rem1 = amount - s1;
        let sender_owned = sender.to_owned();
        let b2 = if str_eq(sender, payee.as_str()) {
            b1 - s1
        } else {
            self.balance(&sender_owned, &asset)
        };
        let s2 = if b2 < rem1 {
            b2
        } else {
            rem1
        };
        let rem2 = rem1 - s2;
        let (b3, s3, rem3): (u128, u128, u128) = match &app_contract {
            Some(a) => {
                let b3 = if str_eq(a.as_str(), sender) {
                    b2 - s2
                } else if str_eq(a.as_str(), payee.as_str()) {
                    b1 - s1
                } else {
                    self.balance(a, &asset)
                };
                let s3 = if b3 < rem2 {
                    b3
                } else {
                    rem2
                };
                (b3, s3, rem2 - s3)
            },
            None => (0, 0, rem2),
        };
        if rem3 > 0 {
            return Err(ContractError::InsufficientFunds);
        }
        self.balances.insert((payee.clone(), asset.clone()), b1 - s1);
        self.balances.insert((sender_owned.clone(), asset.clone()), b2 - s2);
        match &app_contract {
            Some(a) => {
                self.balances.insert((a.clone(), asset.clone()), b3 - s3);
            },
            None => {},
        }
        let rb = self.balance(&receiver, &asset);
        self.balances.insert((receiver, asset), rb + amount);
        let mut resp = Response::new();
        resp.attributes.push(Attribute::new("action", "pay_fee"));
        resp.attributes.push(Attribute { key: "payee".to_owned(), value: payee.clone() });
        Ok(resp)
    }

    /// Debits the caller's own balance (all of it when no amount is named)
    /// and requests a bank transfer of exactly the debited amount back to the
    /// caller; a zero or insufficient balance is rejected whole.
    pub fn execute_withdraw(&mut self, sender: &str, amount: Option<u128>, asset: String) -> (r:
        Result<Response, ContractError>)
        requires
            old(self).wf(),
        ensures
            final(self).wf(),
            ({
                let b = bal_of(old(self).bal(), sender@, asset@);
                let w = match amount {
                    Some(a) => a,
                    None => b,
                };
                match r {
                    Ok(resp) => {
                        &&& 0 < w <= b
                        &&& final(self).bal() =~= old(self).bal().insert(
                            (sender@, asset@),
                            (b - w) as u128,
                        )
                        &&& resp@.messages.len() == 1
                        &&& resp@.messages[0].msg == (crate::types::CosmosMsgView::BankSend {
                            to_address: sender@,
                            amount: seq![CoinView { denom: asset@, amount: w }],
                        })
                        &&& resp@.messages[0].reply_on == crate::types::ReplyOn::Never
                        &&& resp@.attributes =~~= seq![
                            AttributeView { key: "action"@, value: "withdraw"@ },
                            AttributeView {
                                key: "amount"@,
                                value: crate::strutil::dec_str(w as nat),
                            },
                        ]
                    },
                    Err(e) => {
                        &&& !(0 < w <= b)
                        &&& e@ == ContractErrorView::InsufficientFunds
                        &&& *final(self) == *old(self)
                    },
                }
            }),
    {
        let b = self.balance(&sender.to_owned(), &asset);
        let w = match amount {
            Some(a) => a,
            None => b,
        };
        if w == 0 || w > b {
            return Err(ContractError::InsufficientFunds);
        }
        self.balances.insert((sender.to_owned(), asset.clone()), b - w);
        let mut resp = Response::new();
        let mut coins: Vec<Coin> = Vec::new();
        coins.push(Coin { denom: asset, amount: w });
        proof {
            assert(coins.deep_view() =~= seq![CoinView { denom: coins@[0].denom@, amount: w }]);
        }
        resp.messages.push(
            SubMsg::new(CosmosMsg::BankSend { to_address: sender.to_owned(), amount: coins }),
        );
        resp.attributes.push(Attribute::new("action", "withdraw"));
        resp.attributes.push(Attribute {
            key: "amount".to_owned(),
            value: crate::strutil::u128_to_string(w),
        });
        Ok(resp)
    }
}

/// A feasible credit sequence stays feasible on every prefix.
proof fn lemma_credit_all_prefix(m: BalanceMap, holder: Seq<char>, funds: Seq<CoinView>, k: int)
    requires
        0 <= k <= funds.len(),
        spec_credit_all(m, holder, funds) is Some,
    ensures
        spec_credit_all(m, holder, funds.take(k)) is Some,
    decreases funds.len() - k,
{
    if k < funds.len() {
        lemma_credit_all_prefix(m, holder, funds, k + 1);
        assert(funds.take(k + 1).drop_last() =~= funds.take(k));
    } else {
        assert(funds.take(k) =~= funds);
    }
}

} // verus!
