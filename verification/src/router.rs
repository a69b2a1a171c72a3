//! The payment router contract: routes a payer's tokens to a merchant's
//! vault, directly or through the merchant's FX router, and takes a protocol
//! fee in basis points.

use vstd::prelude::*;
use crate::chain::{authorized, Address, Fault, ReentrancyGuard};
use crate::store::Store;

verus! {

/// The largest protocol fee, in basis points (10%).
pub const MAX_FEE_BPS: u32 = 1000;

#[derive(Clone, Copy, Debug, PartialEq, Eq, Structural)]
pub enum PaymentError {
    AlreadyInitialized,
    NotInitialized,
    Unauthorized,
    ContractPaused,
    Reentrancy,
    MerchantInactive,
    FxRouterMissing,
    InvalidSendAmount,
    InvalidMinReceive,
    SettlementBelowMin,
    FxSwapFailed,
    InvalidFeeBps,
}

impl PaymentError {
    /// The error's number as the contract reports it.
    pub fn code(&self) -> (c: u32)
        ensures
            c == payment_error_code(*self),
    {
        match self {
            PaymentError::AlreadyInitialized => 1,
            PaymentError::NotInitialized => 2,
            PaymentError::Unauthorized => 3,
            PaymentError::ContractPaused => 4,
            PaymentError::Reentrancy => 5,
            PaymentError::MerchantInactive => 6,
            PaymentError::FxRouterMissing => 7,
            PaymentError::InvalidSendAmount => 8,
            PaymentError::InvalidMinReceive => 9,
            PaymentError::SettlementBelowMin => 10,
            PaymentError::FxSwapFailed => 11,
            PaymentError::InvalidFeeBps => 12,
        }
    }
}

pub open spec fn payment_error_code(e: PaymentError) -> u32 {
    match e {
        PaymentError::AlreadyInitialized => 1,
        PaymentError::NotInitialized => 2,
        PaymentError::Unauthorized => 3,
        PaymentError::ContractPaused => 4,
        PaymentError::Reentrancy => 5,
        PaymentError::MerchantInactive => 6,
        PaymentError::FxRouterMissing => 7,
        PaymentError::InvalidSendAmount => 8,
        PaymentError::InvalidMinReceive => 9,
        PaymentError::SettlementBelowMin => 10,
        PaymentError::FxSwapFailed => 11,
        PaymentError::InvalidFeeBps => 12,
    }
}

/// What the registry answers for a merchant.
#[derive(Clone, Copy, Debug)]
pub struct MerchantMetadata {
    pub settlement_asset: Address,
    pub vault: Address,
    pub active: bool,
    pub fx_router: Option<Address>,
}

/// What the FX router and the settlement token answer during a swap: the
/// router's quote and the router contract's settlement-token balance before
/// and after the swap.
#[derive(Clone, Copy, Debug)]
pub struct FxAnswers {
    pub quoted: i128,
    pub balance_before: i128,
    pub balance_after: i128,
}

#[derive(Clone, Copy, Debug, PartialEq, Eq, Structural)]
pub enum PaymentStage {
    Initiated,
    Settled,
}

/// A payment lifecycle event.
#[derive(Clone, Debug)]
pub struct PaymentEvent {
    pub stage: PaymentStage,
    pub payer: Address,
    pub merchant_id: Vec<u8>,
    pub send_asset: Address,
    pub send_amount: i128,
    pub settlement_asset: Address,
    pub settled_amount: i128,
    pub fee_amount: i128,
}

#[derive(Clone, Copy, Debug, PartialEq, Eq, Structural)]
pub enum AdminAction {
    Paused,
    Unpaused,
    FeeSet(u32),
    Upgraded(u32),
    AdminTransferred(Address),
}

/// What a router invocation does outside its own storage, in order.
#[derive(Clone, Debug)]
pub enum RouterEffect {
    Transfer { token: Address, from: Address, to: Address, amount: i128 },
    /// The vault's ledger is credited with `amount` for `merchant`.
    VaultCredit { vault: Address, merchant: Address, amount: i128 },
    /// The FX router swaps `send_amount` of `send_asset` into `dest_asset`
    /// for `recipient`.
    Swap {
        fx_router: Address,
        recipient: Address,
        send_asset: Address,
        send_amount: i128,
        dest_asset: Address,
        min_receive: i128,
    },
    /// The contract's code is replaced by the code with this hash.
    UpdateWasm([u8; 32]),
    Payment(PaymentEvent),
    Admin(AdminAction),
}

/// [`PaymentEvent`] as a mathematical value.
pub struct PaymentEventView {
    pub stage: PaymentStage,
    pub payer: Address,
    pub merchant_id: Seq<u8>,
    pub send_asset: Address,
    pub send_amount: i128,
    pub settlement_asset: Address,
    pub settled_amount: i128,
    pub fee_amount: i128,
}

/// [`RouterEffect`] as a mathematical value.
pub enum RouterEffectView {
    Transfer { token: Address, from: Address, to: Address, amount: i128 },
    VaultCredit { vault: Address, merchant: Address, amount: i128 },
    Swap {
        fx_router: Address,
        recipient: Address,
        send_asset: Address,
        send_amount: i128,
        dest_asset: Address,
        min_receive: i128,
    },
    UpdateWasm(Seq<u8>),
    Payment(PaymentEventView),
    Admin(AdminAction),
}

impl View for PaymentEvent {
    type V = PaymentEventView;

    open spec fn view(&self) -> PaymentEventView {
        PaymentEventView {
            stage: self.stage,
            payer: self.payer,
            merchant_id: self.merchant_id@,
            send_asset: self.send_asset,
            send_amount: self.send_amount,
            settlement_asset: self.settlement_asset,
            settled_amount: self.settled_amount,
            fee_amount: self.fee_amount,
        }
    }
}

impl View for RouterEffect {
    type V = RouterEffectView;

    open spec fn view(&self) -> RouterEffectView {
        match *self {
            RouterEffect::Transfer { token, from, to, amount } => RouterEffectView::Transfer {
                token,
                from,
                to,
                amount,
            },
            RouterEffect::VaultCredit { vault, merchant, amount } => RouterEffectView::VaultCredit {
                vault,
                merchant,
                amount,
            },
            RouterEffect::Swap {
                fx_router,
                recipient,
                send_asset,
                send_amount,
                dest_asset,
                min_receive,
            } => RouterEffectView::Swap {
                fx_router,
                recipient,
                send_asset,
                send_amount,
                dest_asset,
                min_receive,
            },
            RouterEffect::UpdateWasm(h) => RouterEffectView::UpdateWasm(h@),
            RouterEffect::Payment(ev) => RouterEffectView::Payment(ev@),
            RouterEffect::Admin(a) => RouterEffectView::Admin(a),
        }
    }
}

pub open spec fn effects_view(effects: Seq<RouterEffect>) -> Seq<RouterEffectView> {
    effects.map_values(|e: RouterEffect| e@)
}

/// The router's storage as a mathematical value. Absent entries read as
/// their defaults: not paused, no fee, no fee destination, version 1.
pub struct RouterBook {
    pub address: Address,
    pub admin: Option<Address>,
    pub registry: Option<Address>,
    pub paused: bool,
    pub fee_bps: u32,
    pub fee_dest: Option<Address>,
    pub guard_held: bool,
    pub version: u32,
}

/// The protocol fee on `gross`: `fee_bps` ten-thousandths of it, rounded
/// toward zero.
pub open spec fn fee_on(gross: i128, fee_bps: u32) -> int {
    if fee_bps == 0 {
        0
    } else if gross >= 0 {
        (gross * fee_bps) / 10000
    } else {
        -(((-gross) * fee_bps) / 10000)
    }
}

/// The fee computation stays within `i128`.
pub open spec fn fee_fits(gross: i128, fee_bps: u32) -> bool {
    fee_bps == 0 || i128::MIN <= gross * fee_bps <= i128::MAX
}

/// Splits `gross` into the merchant's net and the protocol fee.
pub fn split_fee(gross: i128, fee_bps: u32) -> (r: (i128, i128))
    requires
        fee_fits(gross, fee_bps),
    ensures
        r.1 == fee_on(gross, fee_bps),
        r.0 == gross - r.1,
{
    if fee_bps == 0 {
        return (gross, 0);
    }
    let product = gross * (fee_bps as i128);
    let fee: i128 = product / 10_000;
    proof {
        if gross >= 0 {
            assert(product >= 0) by (nonlinear_arith)
                requires
                    gross >= 0,
                    product == gross * fee_bps,
                    fee_bps >= 0,
            ;
        } else {
            assert(-gross * fee_bps == -product) by (nonlinear_arith)
                requires
                    product == gross * fee_bps,
            ;
            assert(product <= 0) by (nonlinear_arith)
                requires
                    gross < 0,
                    product == gross * fee_bps,
                    fee_bps >= 0,
            ;
        }
    }
    (gross - fee, fee)
}

pub open spec fn router_fault(e: PaymentError) -> Fault<PaymentError> {
    Fault::Contract(e)
}

/// The payment events of one payment, at a given stage.
pub open spec fn payment_event(
    stage: PaymentStage,
    from: Address,
    merchant_id: Seq<u8>,
    send_asset: Address,
    send_amount: i128,
    settlement_asset: Address,
    settled: i128,
    fee: i128,
) -> RouterEffectView {
    RouterEffectView::Payment(
        PaymentEventView {
            stage,
            payer: from,
            merchant_id,
            send_asset,
            send_amount,
            settlement_asset,
            settled_amount: settled,
            fee_amount: fee,
        },
    )
}

/// The transfers that move `net` to the vault and `fee` to the fee
/// destination, paid by `payer` in `token`, followed by the vault credit.
pub open spec fn settlement_effects(
    token: Address,
    payer: Address,
    merchant: MerchantMetadata,
    fee_dest: Option<Address>,
    credited_for: Address,
    net: i128,
    fee: i128,
) -> Seq<RouterEffectView> {
    let to_vault = seq![RouterEffectView::Transfer { token, from: payer, to: merchant.vault, amount: net }];
    let to_fee = if fee > 0 && fee_dest is Some {
        seq![RouterEffectView::Transfer { token, from: payer, to: fee_dest->0, amount: fee }]
    } else {
        seq![]
    };
    to_vault + to_fee + seq![
        RouterEffectView::VaultCredit { vault: merchant.vault, merchant: credited_for, amount: net },
    ]
}

/// What the FX path receives: the growth of the contract's balance.
pub open spec fn fx_received(fx: FxAnswers) -> int {
    fx.balance_after - fx.balance_before
}

/// `pay`: the outcome of a payment, given the registry's answer for the
/// merchant and, on the FX path, the swap's answers. The result carries the
/// storage after, the effects in order, and the net amount credited.
pub open spec fn spec_pay(
    s: RouterBook,
    auth: Seq<Address>,
    from: Address,
    merchant_id: Seq<u8>,
    send_asset: Address,
    send_amount: i128,
    min_receive: i128,
    merchant: MerchantMetadata,
    fx: FxAnswers,
) -> Result<(RouterBook, Seq<RouterEffectView>, i128), Fault<PaymentError>> {
    let settle = merchant.settlement_asset;
    let initiated = payment_event(
        PaymentStage::Initiated,
        from,
        merchant_id,
        send_asset,
        send_amount,
        settle,
        0,
        0,
    );
    if s.paused {
        Err(router_fault(PaymentError::ContractPaused))
    } else if send_amount <= 0 {
        Err(router_fault(PaymentError::InvalidSendAmount))
    } else if min_receive <= 0 {
        Err(router_fault(PaymentError::InvalidMinReceive))
    } else if !auth.contains(from) {
        Err(Fault::MissingAuth(from))
    } else if s.guard_held {
        Err(router_fault(PaymentError::Reentrancy))
    } else if s.registry is None {
        Err(router_fault(PaymentError::NotInitialized))
    } else if !merchant.active {
        Err(router_fault(PaymentError::MerchantInactive))
    } else if send_asset == settle {
        let fee = fee_on(send_amount, s.fee_bps);
        let net = send_amount - fee;
        if net < min_receive {
            Err(router_fault(PaymentError::SettlementBelowMin))
        } else {
            Ok((
                s,
                seq![initiated] + settlement_effects(
                    settle,
                    from,
                    merchant,
                    s.fee_dest,
                    from,
                    net as i128,
                    fee as i128,
                ) + seq![
                    payment_event(
                        PaymentStage::Settled,
                        from,
                        merchant_id,
                        send_asset,
                        send_amount,
                        settle,
                        net as i128,
                        fee as i128,
                    ),
                ],
                net as i128,
            ))
        }
    } else if merchant.fx_router is None {
        Err(router_fault(PaymentError::FxRouterMissing))
    } else if fx.quoted < min_receive {
        Err(router_fault(PaymentError::SettlementBelowMin))
    } else if fx_received(fx) < min_receive {
        Err(router_fault(PaymentError::FxSwapFailed))
    } else {
        let received = fx_received(fx) as i128;
        let fee = fee_on(received, s.fee_bps);
        let net = received - fee;
        let router = merchant.fx_router->0;
        if net < min_receive {
            Err(router_fault(PaymentError::SettlementBelowMin))
        } else {
            Ok((
                s,
                seq![
                    initiated,
                    RouterEffectView::Transfer {
                        token: send_asset,
                        from,
                        to: router,
                        amount: send_amount,
                    },
                    RouterEffectView::Swap {
                        fx_router: router,
                        recipient: s.address,
                        send_asset,
                        send_amount,
                        dest_asset: settle,
                        min_receive,
                    },
                ] + settlement_effects(
                    settle,
                    s.address,
                    merchant,
                    s.fee_dest,
                    from,
                    net as i128,
                    fee as i128,
                ) + seq![
                    payment_event(
                        PaymentStage::Settled,
                        from,
                        merchant_id,
                        send_asset,
                        send_amount,
                        settle,
                        net as i128,
                        fee as i128,
                    ),
                ],
                net as i128,
            ))
        }
    }
}

/// Where the arithmetic of `pay` stays within `i128`.
pub open spec fn pay_fits(
    s: RouterBook,
    send_asset: Address,
    send_amount: i128,
    merchant: MerchantMetadata,
    fx: FxAnswers,
) -> bool {
    if send_asset == merchant.settlement_asset {
        fee_fits(send_amount, s.fee_bps)
    } else {
        i128::MIN <= fx_received(fx) <= i128::MAX && fee_fits(fx_received(fx) as i128, s.fee_bps)
    }
}

/// The admin check shared by the admin entry points.
pub open spec fn admin_fault(s: RouterBook, auth: Seq<Address>) -> Option<Fault<PaymentError>> {
    match s.admin {
        None => Some(router_fault(PaymentError::NotInitialized)),
        Some(a) => if auth.contains(a) {
            None
        } else {
            Some(Fault::MissingAuth(a))
        },
    }
}

pub open spec fn spec_initialize(
    s: RouterBook,
    auth: Seq<Address>,
    admin: Address,
    registry: Address,
    fee_bps: u32,
    fee_dest: Option<Address>,
) -> Result<(RouterBook, Seq<RouterEffectView>), Fault<PaymentError>> {
    if s.admin is Some {
        Err(router_fault(PaymentError::AlreadyInitialized))
    } else if fee_bps > MAX_FEE_BPS {
        Err(router_fault(PaymentError::InvalidFeeBps))
    } else if !auth.contains(admin) {
        Err(Fault::MissingAuth(admin))
    } else {
        Ok((
            RouterBook {
                address: s.address,
                admin: Some(admin),
                registry: Some(registry),
                paused: false,
                fee_bps,
                fee_dest,
                guard_held: false,
                version: 1,
            },
            seq![],
        ))
    }
}

pub open spec fn spec_set_paused(s: RouterBook, auth: Seq<Address>, paused: bool) -> Result<
    (RouterBook, Seq<RouterEffectView>),
    Fault<PaymentError>,
> {
    match admin_fault(s, auth) {
        Some(f) => Err(f),
        None => Ok((
            RouterBook { paused, ..s },
            seq![
                RouterEffectView::Admin(
                    if paused {
                        AdminAction::Paused
                    } else {
                        AdminAction::Unpaused
                    },
                ),
            ],
        )),
    }
}

pub open spec fn spec_set_fee(
    s: RouterBook,
    auth: Seq<Address>,
    fee_bps: u32,
    fee_dest: Option<Address>,
) -> Result<(RouterBook, Seq<RouterEffectView>), Fault<PaymentError>> {
    match admin_fault(s, auth) {
        Some(f) => Err(f),
        None => if fee_bps > MAX_FEE_BPS {
            Err(router_fault(PaymentError::InvalidFeeBps))
        } else {
            Ok(
                (
                    RouterBook { fee_bps, fee_dest, ..s },
                    seq![RouterEffectView::Admin(AdminAction::FeeSet(fee_bps))],
                ),
            )
        },
    }
}

pub open spec fn spec_upgrade(s: RouterBook, auth: Seq<Address>, wasm_hash: [u8; 32]) -> Result<
    (RouterBook, Seq<RouterEffectView>),
    Fault<PaymentError>,
> {
    match admin_fault(s, auth) {
        Some(f) => Err(f),
        None => Ok(
            (
                RouterBook { version: (s.version + 1) as u32, ..s },
                seq![
                    RouterEffectView::UpdateWasm(wasm_hash@),
                    RouterEffectView::Admin(AdminAction::Upgraded((s.version + 1) as u32)),
                ],
            ),
        ),
    }
}

pub open spec fn spec_transfer_admin(s: RouterBook, auth: Seq<Address>, new_admin: Address) -> Result<
    (RouterBook, Seq<RouterEffectView>),
    Fault<PaymentError>,
> {
    match admin_fault(s, auth) {
        Some(f) => Err(f),
        None => Ok(
            (
                RouterBook { admin: Some(new_admin), ..s },
                seq![RouterEffectView::Admin(AdminAction::AdminTransferred(new_admin))],
            ),
        ),
    }
}

pub open spec fn observed_router(r: Result<Vec<RouterEffect>, Fault<PaymentError>>, after: RouterBook) -> Result<
    (RouterBook, Seq<RouterEffectView>),
    Fault<PaymentError>,
> {
    match r {
        Ok(effects) => Ok((after, effects_view(effects@))),
        Err(e) => Err(e),
    }
}


/// The protocol fee on a non-negative amount is never negative and, with a
/// fee of at most 10%, never more than a tenth of the amount; net and fee
/// add up to the amount.
pub proof fn law_fee_split_bounds(gross: i128, fee_bps: u32)
    requires
        gross >= 0,
        fee_bps <= MAX_FEE_BPS,
    ensures
        0 <= fee_on(gross, fee_bps),
        10 * fee_on(gross, fee_bps) <= gross,
        (gross - fee_on(gross, fee_bps)) + fee_on(gross, fee_bps) == gross,
{
    if fee_bps != 0 {
        assert(0 <= gross * fee_bps <= gross * 1000) by (nonlinear_arith)
            requires
                gross >= 0,
                0 <= fee_bps <= 1000,
        ;
        assert(10 * ((gross * fee_bps) / 10000) <= gross) by (nonlinear_arith)
            requires
                0 <= gross * fee_bps <= gross * 1000,
                gross >= 0,
        ;
    }
}

/// While the router is paused every payment is refused with
/// `ContractPaused`, whatever its arguments.
pub proof fn law_paused_refuses_payments(
    s: RouterBook,
    auth: Seq<Address>,
    from: Address,
    merchant_id: Seq<u8>,
    send_asset: Address,
    send_amount: i128,
    min_receive: i128,
    merchant: MerchantMetadata,
    fx: FxAnswers,
)
    requires
        s.paused,
    ensures
        spec_pay(s, auth, from, merchant_id, send_asset, send_amount, min_receive, merchant, fx)
            == Err::<(RouterBook, Seq<RouterEffectView>, i128), Fault<PaymentError>>(
            Fault::Contract(PaymentError::ContractPaused),
        ),
{
}

/// A successful payment leaves the router's storage unchanged, credits the
/// merchant's vault with the returned net for the payer, and the net is at
/// least the payer's minimum and at most what was settled.
pub proof fn law_payment_outcome(
    s: RouterBook,
    auth: Seq<Address>,
    from: Address,
    merchant_id: Seq<u8>,
    send_asset: Address,
    send_amount: i128,
    min_receive: i128,
    merchant: MerchantMetadata,
    fx: FxAnswers,
)
    requires
        s.fee_bps <= MAX_FEE_BPS,
        pay_fits(s, send_asset, send_amount, merchant, fx),
    ensures
        spec_pay(s, auth, from, merchant_id, send_asset, send_amount, min_receive, merchant, fx) matches Ok(
            (s2, effects, net),
        ) ==> {
            &&& s2 == s
            &&& net >= min_receive
            &&& net <= if send_asset == merchant.settlement_asset {
                send_amount as int
            } else {
                fx_received(fx)
            }
            &&& effects.contains(
                RouterEffectView::VaultCredit { vault: merchant.vault, merchant: from, amount: net },
            )
            &&& auth.contains(from)
            &&& merchant.active
        },
{
    let r = spec_pay(s, auth, from, merchant_id, send_asset, send_amount, min_receive, merchant, fx);
    if r is Ok {
        let gross: i128 = if send_asset == merchant.settlement_asset {
            send_amount
        } else {
            fx_received(fx) as i128
        };
        law_fee_split_bounds(gross, s.fee_bps);
        let (s2, effects, net) = r->Ok_0;
        let fee = fee_on(gross, s.fee_bps);
        let payer = if send_asset == merchant.settlement_asset { from } else { s.address };
        let settle = settlement_effects(
            merchant.settlement_asset,
            payer,
            merchant,
            s.fee_dest,
            from,
            net,
            fee as i128,
        );
        let credit = RouterEffectView::VaultCredit { vault: merchant.vault, merchant: from, amount: net };
        assert(settle[settle.len() - 1] == credit);
        if send_asset == merchant.settlement_asset {
            let initiated = payment_event(PaymentStage::Initiated, from, merchant_id, send_asset, send_amount, merchant.settlement_asset, 0, 0);
            let settled = payment_event(PaymentStage::Settled, from, merchant_id, send_asset, send_amount, merchant.settlement_asset, net, fee as i128);
            assert(effects == seq![initiated] + settle + seq![settled]);
            assert(effects[settle.len() as int] == credit);
        } else {
            let head = seq![
                payment_event(PaymentStage::Initiated, from, merchant_id, send_asset, send_amount, merchant.settlement_asset, 0, 0),
                RouterEffectView::Transfer { token: send_asset, from, to: merchant.fx_router->0, amount: send_amount },
                RouterEffectView::Swap {
                    fx_router: merchant.fx_router->0,
                    recipient: s.address,
                    send_asset,
                    send_amount,
                    dest_asset: merchant.settlement_asset,
                    min_receive,
                },
            ];
            let settled = payment_event(PaymentStage::Settled, from, merchant_id, send_asset, send_amount, merchant.settlement_asset, net, fee as i128);
            assert(effects == head + settle + seq![settled]);
            assert(effects[head.len() + settle.len() - 1] == credit);
        }
    }
}

/// A successful payment splits what was actually settled, `gross` (the
/// amount sent when it is already in the settlement asset, else what the
/// swap brought in), into the protocol fee, `gross * fee_bps / 10000`
/// rounded down, and the merchant's net, the rest: the net is what is
/// returned, credited and transferred to the vault, and the fee, when there
/// is one and a fee destination, is transferred there; the two add up to
/// `gross` and nothing more is paid out.
pub proof fn law_payment_split_is_exact(
    s: RouterBook,
    auth: Seq<Address>,
    from: Address,
    merchant_id: Seq<u8>,
    send_asset: Address,
    send_amount: i128,
    min_receive: i128,
    merchant: MerchantMetadata,
    fx: FxAnswers,
)
    requires
        pay_fits(s, send_asset, send_amount, merchant, fx),
    ensures
        spec_pay(s, auth, from, merchant_id, send_asset, send_amount, min_receive, merchant, fx) matches Ok(
            (s2, effects, net),
        ) ==> {
            let direct = send_asset == merchant.settlement_asset;
            let gross = if direct {
                send_amount as int
            } else {
                fx.balance_after - fx.balance_before
            };
            let payer = if direct {
                from
            } else {
                s.address
            };
            &&& gross > 0
            &&& net == gross - (gross * s.fee_bps) / 10000
            &&& effects.contains(
                RouterEffectView::Transfer {
                    token: merchant.settlement_asset,
                    from: payer,
                    to: merchant.vault,
                    amount: net,
                },
            )
            &&& effects.contains(
                RouterEffectView::VaultCredit { vault: merchant.vault, merchant: from, amount: net },
            )
            &&& (gross - net > 0 && s.fee_dest is Some) ==> effects.contains(
                RouterEffectView::Transfer {
                    token: merchant.settlement_asset,
                    from: payer,
                    to: s.fee_dest->0,
                    amount: (gross - net) as i128,
                },
            )
        },
{
    let r = spec_pay(s, auth, from, merchant_id, send_asset, send_amount, min_receive, merchant, fx);
    if r is Ok {
        let (s2, effects, net) = r->Ok_0;
        let direct = send_asset == merchant.settlement_asset;
        let gross: i128 = if direct {
            send_amount
        } else {
            fx_received(fx) as i128
        };
        let fee = fee_on(gross, s.fee_bps);
        assert(gross > 0);
        assert(fee == (gross * s.fee_bps) / 10000) by (nonlinear_arith)
            requires
                gross > 0,
                fee == fee_on(gross, s.fee_bps),
                s.fee_bps == 0 ==> fee == 0,
                s.fee_bps != 0 ==> fee == (gross * s.fee_bps) / 10000,
        ;
        let payer = if direct {
            from
        } else {
            s.address
        };
        let settle = settlement_effects(
            merchant.settlement_asset,
            payer,
            merchant,
            s.fee_dest,
            from,
            net,
            fee as i128,
        );
        let to_vault = RouterEffectView::Transfer { token: merchant.settlement_asset, from: payer, to: merchant.vault, amount: net };
        let credit = RouterEffectView::VaultCredit { vault: merchant.vault, merchant: from, amount: net };
        assert(settle[0] == to_vault);
        assert(settle[settle.len() - 1] == credit);
        let head: Seq<RouterEffectView> = if direct {
            seq![payment_event(PaymentStage::Initiated, from, merchant_id, send_asset, send_amount, merchant.settlement_asset, 0, 0)]
        } else {
            seq![
                payment_event(PaymentStage::Initiated, from, merchant_id, send_asset, send_amount, merchant.settlement_asset, 0, 0),
                RouterEffectView::Transfer { token: send_asset, from, to: merchant.fx_router->0, amount: send_amount },
                RouterEffectView::Swap {
                    fx_router: merchant.fx_router->0,
                    recipient: s.address,
                    send_asset,
                    send_amount,
                    dest_asset: merchant.settlement_asset,
                    min_receive,
                },
            ]
        };
        let settled = payment_event(PaymentStage::Settled, from, merchant_id, send_asset, send_amount, merchant.settlement_asset, net, fee as i128);
        assert(effects == head + settle + seq![settled]);
        assert(effects[head.len() as int] == to_vault);
        assert(effects[head.len() + settle.len() - 1] == credit);
        if fee > 0 && s.fee_dest is Some {
            let to_fee = RouterEffectView::Transfer {
                token: merchant.settlement_asset,
                from: payer,
                to: s.fee_dest->0,
                amount: fee as i128,
            };
            assert(settle[1] == to_fee);
            assert(effects[head.len() as int + 1] == to_fee);
        }
    }
}

/// Every administrative call succeeds only when the router is initialized
/// and its admin authorized the call; `initialize` succeeds only once.
pub proof fn law_admin_only(
    s: RouterBook,
    auth: Seq<Address>,
    paused: bool,
    fee_bps: u32,
    fee_dest: Option<Address>,
    wasm_hash: [u8; 32],
    new_admin: Address,
    registry: Address,
)
    ensures
        spec_set_paused(s, auth, paused) is Ok || spec_set_fee(s, auth, fee_bps, fee_dest) is Ok
            || spec_upgrade(s, auth, wasm_hash) is Ok || spec_transfer_admin(s, auth, new_admin) is Ok
            ==> s.admin is Some && auth.contains(s.admin->0),
        s.admin is Some ==> spec_initialize(s, auth, new_admin, registry, fee_bps, fee_dest)
            == Err::<(RouterBook, Seq<RouterEffectView>), Fault<PaymentError>>(
            Fault::Contract(PaymentError::AlreadyInitialized),
        ),
{
}

/// The fee never exceeds 10%: no call moves it above the limit.
pub proof fn law_fee_stays_bounded(
    s: RouterBook,
    auth: Seq<Address>,
    paused: bool,
    fee_bps: u32,
    fee_dest: Option<Address>,
    wasm_hash: [u8; 32],
    new_admin: Address,
    registry: Address,
)
    requires
        s.fee_bps <= MAX_FEE_BPS,
    ensures
        spec_initialize(s, auth, new_admin, registry, fee_bps, fee_dest) matches Ok((s2, _))
            ==> s2.fee_bps <= MAX_FEE_BPS,
        spec_set_fee(s, auth, fee_bps, fee_dest) matches Ok((s2, _)) ==> s2.fee_bps <= MAX_FEE_BPS,
        spec_set_paused(s, auth, paused) matches Ok((s2, _)) ==> s2.fee_bps == s.fee_bps,
        spec_upgrade(s, auth, wasm_hash) matches Ok((s2, _)) ==> s2.fee_bps == s.fee_bps,
        spec_transfer_admin(s, auth, new_admin) matches Ok((s2, _)) ==> s2.fee_bps == s.fee_bps,
{
}

/// Pausing and then unpausing gives back an unpaused router's storage, and
/// pausing twice is the same as pausing once.
pub proof fn law_pause_round_trip(s: RouterBook, auth: Seq<Address>)
    requires
        !s.paused,
    ensures
        spec_set_paused(s, auth, true) matches Ok((s1, _)) ==> spec_set_paused(s1, auth, false)
            matches Ok((s2, _)) && s2 == s,
        spec_set_paused(s, auth, true) matches Ok((s1, _)) ==> spec_set_paused(s1, auth, true)
            matches Ok((s2, _)) && s2 == s1,
{
}

/// The router's storage.
pub struct PaymentRouter {
    address: Address,
    admin: Option<Address>,
    registry: Option<Address>,
    paused: bool,
    fee_bps: u32,
    fee_dest: Option<Address>,
    guard: ReentrancyGuard,
    version: u32,
}

impl View for PaymentRouter {
    type V = RouterBook;

    closed spec fn view(&self) -> RouterBook {
        RouterBook {
            address: self.address,
            admin: self.admin,
            registry: self.registry,
            paused: self.paused,
            fee_bps: self.fee_bps,
            fee_dest: self.fee_dest,
            guard_held: self.guard.held(),
            version: self.version,
        }
    }
}

impl PaymentRouter {
    /// The reentrancy guard is free: between invocations it always is.
    pub fn guard_is_free(&self)
        ensures
            !self@.guard_held,
    {
        proof {
            use_type_invariant(&self.guard);
            ReentrancyGuard::lemma_free(self.guard);
        }
    }

    /// A freshly deployed, uninitialized router at `address`.
    pub fn new(address: Address) -> (c: Self)
        ensures
            c@ == (RouterBook {
                address,
                admin: None,
                registry: None,
                paused: false,
                fee_bps: 0,
                fee_dest: None,
                guard_held: false,
                version: 1,
            }),
    {
        PaymentRouter {
            address,
            admin: None,
            registry: None,
            paused: false,
            fee_bps: 0,
            fee_dest: None,
            guard: ReentrancyGuard::new(),
            version: 1,
        }
    }

    /// Sets the admin, the registry and the fee; only once.
    pub fn initialize(
        &mut self,
        auth: &Vec<Address>,
        admin: Address,
        registry: Address,
        fee_bps: u32,
        fee_dest: Option<Address>,
    ) -> (r: Result<Vec<RouterEffect>, Fault<PaymentError>>)
        ensures
            !final(self)@.guard_held,
            observed_router(r, final(self)@) == spec_initialize(
                old(self)@,
                auth@,
                admin,
                registry,
                fee_bps,
                fee_dest,
            ),
            r is Err ==> final(self)@ == old(self)@,
    {
        proof {
            use_type_invariant(&self.guard);
            ReentrancyGuard::lemma_free(self.guard);
        }
        if self.admin.is_some() {
            return Err(Fault::Contract(PaymentError::AlreadyInitialized));
        }
        if fee_bps > MAX_FEE_BPS {
            return Err(Fault::Contract(PaymentError::InvalidFeeBps));
        }
        if !authorized(auth, admin) {
            return Err(Fault::MissingAuth(admin));
        }
        self.admin = Some(admin);
        self.registry = Some(registry);
        self.fee_bps = fee_bps;
        self.fee_dest = fee_dest;
        self.paused = false;
        self.guard = ReentrancyGuard::new();
        self.version = 1;
        let effects: Vec<RouterEffect> = Vec::new();
        proof {
            assert(effects_view(effects@) =~= Seq::<RouterEffectView>::empty());
        }
        Ok(effects)
    }

    /// The transfers of net and fee in `token` paid by `payer`, followed by
    /// the vault credit for `credited_for`.
    fn push_settlement(
        &self,
        effects: &mut Vec<RouterEffect>,
        token: Address,
        payer: Address,
        merchant: &MerchantMetadata,
        credited_for: Address,
        net: i128,
        fee: i128,
    )
        ensures
            effects_view(final(effects)@) =~= effects_view(old(effects)@) + settlement_effects(
                token,
                payer,
                *merchant,
                self@.fee_dest,
                credited_for,
                net,
                fee,
            ),
    {
        let ghost before = effects@;
        effects.push(RouterEffect::Transfer { token, from: payer, to: merchant.vault, amount: net });
        if fee > 0 {
            match self.fee_dest {
                Some(dest) => {
                    effects.push(RouterEffect::Transfer { token, from: payer, to: dest, amount: fee });
                },
                None => {},
            }
        }
        effects.push(RouterEffect::VaultCredit { vault: merchant.vault, merchant: credited_for, amount: net });
        proof {
            let to_vault = seq![RouterEffectView::Transfer { token, from: payer, to: merchant.vault, amount: net }];
            let to_fee = if fee > 0 && self@.fee_dest is Some {
                seq![RouterEffectView::Transfer { token, from: payer, to: self@.fee_dest->0, amount: fee }]
            } else {
                Seq::<RouterEffectView>::empty()
            };
            let credit = seq![RouterEffectView::VaultCredit { vault: merchant.vault, merchant: credited_for, amount: net }];
            let added = effects@.subrange(before.len() as int, effects@.len() as int);
            assert(effects@ =~= before + added);
            assert(effects_view(added) =~= to_vault + to_fee + credit);
            assert(effects_view(before + added) =~= effects_view(before) + effects_view(added));
        }
    }

    /// Routes a payment of `send_amount` of `send_asset` from `from` to the
    /// merchant, given the registry's answer for the merchant and, when the
    /// merchant settles in another asset, the FX router's answers. Returns
    /// the net amount credited to the merchant's vault and the effects.
    pub fn pay(
        &mut self,
        auth: &Vec<Address>,
        from: Address,
        merchant_id: Vec<u8>,
        send_asset: Address,
        send_amount: i128,
        min_receive: i128,
        merchant: &MerchantMetadata,
        fx: &FxAnswers,
    ) -> (r: Result<(i128, Vec<RouterEffect>), Fault<PaymentError>>)
        requires
            pay_fits(old(self)@, send_asset, send_amount, *merchant, *fx),
        ensures
            !final(self)@.guard_held,
            match r {
                Ok((net, effects)) => spec_pay(
                    old(self)@,
                    auth@,
                    from,
                    merchant_id@,
                    send_asset,
                    send_amount,
                    min_receive,
                    *merchant,
                    *fx,
                ) == Ok::<(RouterBook, Seq<RouterEffectView>, i128), Fault<PaymentError>>(
                    (final(self)@, effects_view(effects@), net),
                ),
                Err(e) => spec_pay(
                    old(self)@,
                    auth@,
                    from,
                    merchant_id@,
                    send_asset,
                    send_amount,
                    min_receive,
                    *merchant,
                    *fx,
                ) == Err::<(RouterBook, Seq<RouterEffectView>, i128), Fault<PaymentError>>(e),
            },
            final(self)@ == old(self)@,
    {
        proof {
            use_type_invariant(&self.guard);
            ReentrancyGuard::lemma_free(self.guard);
        }
        if self.paused {
            return Err(Fault::Contract(PaymentError::ContractPaused));
        }
        if send_amount <= 0 {
            return Err(Fault::Contract(PaymentError::InvalidSendAmount));
        }
        if min_receive <= 0 {
            return Err(Fault::Contract(PaymentError::InvalidMinReceive));
        }
        if !authorized(auth, from) {
            return Err(Fault::MissingAuth(from));
        }
        if self.guard.is_held() {
            return Err(Fault::Contract(PaymentError::Reentrancy));
        }
        if self.registry.is_none() {
            return Err(Fault::Contract(PaymentError::NotInitialized));
        }
        if !merchant.active {
            return Err(Fault::Contract(PaymentError::MerchantInactive));
        }
        let settle = merchant.settlement_asset;
        let id_copy = merchant_id.clone();
        proof {
            assert(id_copy@ =~= merchant_id@);
        }
        let mut effects: Vec<RouterEffect> = Vec::new();
        effects.push(
            RouterEffect::Payment(
                PaymentEvent {
                    stage: PaymentStage::Initiated,
                    payer: from,
                    merchant_id: id_copy,
                    send_asset,
                    send_amount,
                    settlement_asset: settle,
                    settled_amount: 0,
                    fee_amount: 0,
                },
            ),
        );
        let ghost initiated = payment_event(
            PaymentStage::Initiated,
            from,
            merchant_id@,
            send_asset,
            send_amount,
            settle,
            0,
            0,
        );
        proof {
            assert(effects_view(effects@) =~= seq![initiated]);
        }
        let net: i128;
        let fee: i128;
        if send_asset == settle {
            let split = split_fee(send_amount, self.fee_bps);
            net = split.0;
            fee = split.1;
            if net < min_receive {
                return Err(Fault::Contract(PaymentError::SettlementBelowMin));
            }
            self.push_settlement(&mut effects, settle, from, merchant, from, net, fee);
        } else {
            let router = match merchant.fx_router {
                Some(a) => a,
                None => {
                    return Err(Fault::Contract(PaymentError::FxRouterMissing));
                },
            };
            if fx.quoted < min_receive {
                return Err(Fault::Contract(PaymentError::SettlementBelowMin));
            }
            let received = fx.balance_after - fx.balance_before;
            if received < min_receive {
                return Err(Fault::Contract(PaymentError::FxSwapFailed));
            }
            let split = split_fee(received, self.fee_bps);
            net = split.0;
            fee = split.1;
            if net < min_receive {
                return Err(Fault::Contract(PaymentError::SettlementBelowMin));
            }
            let ghost before = effects@;
            effects.push(RouterEffect::Transfer { token: send_asset, from, to: router, amount: send_amount });
            effects.push(
                RouterEffect::Swap {
                    fx_router: router,
                    recipient: self.address,
                    send_asset,
                    send_amount,
                    dest_asset: settle,
                    min_receive,
                },
            );
            proof {
                assert(effects_view(effects@) =~= effects_view(before) + seq![
                    RouterEffectView::Transfer { token: send_asset, from, to: router, amount: send_amount },
                    RouterEffectView::Swap {
                        fx_router: router,
                        recipient: self@.address,
                        send_asset,
                        send_amount,
                        dest_asset: settle,
                        min_receive,
                    },
                ]);
            }
            self.push_settlement(&mut effects, settle, self.address, merchant, from, net, fee);
        }
        let ghost before_settled = effects@;
        effects.push(
            RouterEffect::Payment(
                PaymentEvent {
                    stage: PaymentStage::Settled,
                    payer: from,
                    merchant_id: merchant_id,
                    send_asset,
                    send_amount,
                    settlement_asset: settle,
                    settled_amount: net,
                    fee_amount: fee,
                },
            ),
        );
        proof {
            assert(effects_view(effects@) =~= effects_view(before_settled) + seq![
                payment_event(
                    PaymentStage::Settled,
                    from,
                    merchant_id@,
                    send_asset,
                    send_amount,
                    settle,
                    net,
                    fee,
                ),
            ]);
            let spec_r = spec_pay(old(self)@, auth@, from, merchant_id@, send_asset, send_amount, min_receive, *merchant, *fx);
            if send_asset == settle {
                assert(fee == fee_on(send_amount, self@.fee_bps));
                assert(spec_r matches Ok((s2, e2, n2)) && n2 == net);
                assert(spec_r matches Ok((s2, e2, n2)) && s2 == self@);
                assert(spec_r matches Ok((s2, e2, n2)) && e2 == effects_view(effects@));
            } else {
                assert(spec_r matches Ok((s2, e2, n2)) && n2 == net);
                assert(spec_r matches Ok((s2, e2, n2)) && e2 == effects_view(effects@));
            }
        }
        Ok((net, effects))
    }

    fn check_admin(&self, auth: &Vec<Address>) -> (r: Result<(), Fault<PaymentError>>)
        ensures
            match r {
                Ok(()) => admin_fault(self@, auth@) is None,
                Err(f) => admin_fault(self@, auth@) == Some(f),
            },
    {
        match self.admin {
            None => Err(Fault::Contract(PaymentError::NotInitialized)),
            Some(a) => if authorized(auth, a) {
                Ok(())
            } else {
                Err(Fault::MissingAuth(a))
            },
        }
    }

    /// Stops payments (circuit breaker); admin only.
    pub fn pause(&mut self, auth: &Vec<Address>) -> (r: Result<Vec<RouterEffect>, Fault<PaymentError>>)
        ensures
            !final(self)@.guard_held,
            observed_router(r, final(self)@) == spec_set_paused(old(self)@, auth@, true),
            r is Err ==> final(self)@ == old(self)@,
    {
        proof {
            use_type_invariant(&self.guard);
            ReentrancyGuard::lemma_free(self.guard);
        }
        self.check_admin(auth)?;
        self.paused = true;
        let mut effects: Vec<RouterEffect> = Vec::new();
        effects.push(RouterEffect::Admin(AdminAction::Paused));
        proof {
            assert(effects_view(effects@) =~= seq![RouterEffectView::Admin(AdminAction::Paused)]);
        }
        Ok(effects)
    }

    /// Resumes payments; admin only.
    pub fn unpause(&mut self, auth: &Vec<Address>) -> (r: Result<Vec<RouterEffect>, Fault<PaymentError>>)
        ensures
            !final(self)@.guard_held,
            observed_router(r, final(self)@) == spec_set_paused(old(self)@, auth@, false),
            r is Err ==> final(self)@ == old(self)@,
    {
        proof {
            use_type_invariant(&self.guard);
            ReentrancyGuard::lemma_free(self.guard);
        }
        self.check_admin(auth)?;
        self.paused = false;
        let mut effects: Vec<RouterEffect> = Vec::new();
        effects.push(RouterEffect::Admin(AdminAction::Unpaused));
        proof {
            assert(effects_view(effects@) =~= seq![RouterEffectView::Admin(AdminAction::Unpaused)]);
        }
        Ok(effects)
    }

    /// Sets the protocol fee (at most 10%) and its destination; admin only.
    pub fn set_fee(&mut self, auth: &Vec<Address>, fee_bps: u32, fee_dest: Option<Address>) -> (r:
        Result<Vec<RouterEffect>, Fault<PaymentError>>)
        ensures
            !final(self)@.guard_held,
            observed_router(r, final(self)@) == spec_set_fee(old(self)@, auth@, fee_bps, fee_dest),
            r is Err ==> final(self)@ == old(self)@,
    {
        proof {
            use_type_invariant(&self.guard);
            ReentrancyGuard::lemma_free(self.guard);
        }
        self.check_admin(auth)?;
        if fee_bps > MAX_FEE_BPS {
            return Err(Fault::Contract(PaymentError::InvalidFeeBps));
        }
        self.fee_bps = fee_bps;
        self.fee_dest = fee_dest;
        let mut effects: Vec<RouterEffect> = Vec::new();
        effects.push(RouterEffect::Admin(AdminAction::FeeSet(fee_bps)));
        proof {
            assert(effects_view(effects@) =~= seq![RouterEffectView::Admin(AdminAction::FeeSet(fee_bps))]);
        }
        Ok(effects)
    }

    /// Replaces the contract's code and bumps its version; admin only.
    pub fn upgrade(&mut self, auth: &Vec<Address>, new_wasm_hash: [u8; 32]) -> (r: Result<
        Vec<RouterEffect>,
        Fault<PaymentError>,
    >)
        requires
            old(self)@.version < u32::MAX,
        ensures
            !final(self)@.guard_held,
            observed_router(r, final(self)@) == spec_upgrade(old(self)@, auth@, new_wasm_hash),
            r is Err ==> final(self)@ == old(self)@,
    {
        proof {
            use_type_invariant(&self.guard);
            ReentrancyGuard::lemma_free(self.guard);
        }
        self.check_admin(auth)?;
        let next = self.version + 1;
        self.version = next;
        let mut effects: Vec<RouterEffect> = Vec::new();
        effects.push(RouterEffect::UpdateWasm(new_wasm_hash));
        effects.push(RouterEffect::Admin(AdminAction::Upgraded(next)));
        proof {
            assert(effects_view(effects@) =~= seq![
                RouterEffectView::UpdateWasm(new_wasm_hash@),
                RouterEffectView::Admin(AdminAction::Upgraded(next)),
            ]);
        }
        Ok(effects)
    }

    /// Hands the admin role to `new_admin`; admin only.
    pub fn transfer_admin(&mut self, auth: &Vec<Address>, new_admin: Address) -> (r: Result<
        Vec<RouterEffect>,
        Fault<PaymentError>,
    >)
        ensures
            !final(self)@.guard_held,
            observed_router(r, final(self)@) == spec_transfer_admin(old(self)@, auth@, new_admin),
            r is Err ==> final(self)@ == old(self)@,
    {
        proof {
            use_type_invariant(&self.guard);
            ReentrancyGuard::lemma_free(self.guard);
        }
        self.check_admin(auth)?;
        self.admin = Some(new_admin);
        let mut effects: Vec<RouterEffect> = Vec::new();
        effects.push(RouterEffect::Admin(AdminAction::AdminTransferred(new_admin)));
        proof {
            assert(effects_view(effects@) =~= seq![
                RouterEffectView::Admin(AdminAction::AdminTransferred(new_admin)),
            ]);
        }
        Ok(effects)
    }

    pub fn get_registry(&self) -> (r: Result<Address, PaymentError>)
        ensures
            match self@.registry {
                Some(a) => r == Ok::<Address, PaymentError>(a),
                None => r == Err::<Address, PaymentError>(PaymentError::NotInitialized),
            },
    {
        match self.registry {
            Some(a) => Ok(a),
            None => Err(PaymentError::NotInitialized),
        }
    }

    pub fn get_admin(&self) -> (r: Result<Address, PaymentError>)
        ensures
            match self@.admin {
                Some(a) => r == Ok::<Address, PaymentError>(a),
                None => r == Err::<Address, PaymentError>(PaymentError::NotInitialized),
            },
    {
        match self.admin {
            Some(a) => Ok(a),
            None => Err(PaymentError::NotInitialized),
        }
    }

    pub fn is_paused(&self) -> (r: bool)
        ensures
            r == self@.paused,
    {
        self.paused
    }

    pub fn get_fee_bps(&self) -> (r: u32)
        ensures
            r == self@.fee_bps,
    {
        self.fee_bps
    }

    pub fn get_fee_dest(&self) -> (r: Option<Address>)
        ensures
            r == self@.fee_dest,
    {
        self.fee_dest
    }

    pub fn get_version(&self) -> (r: u32)
        ensures
            r == self@.version,
    {
        self.version
    }
}


/// A merchant registry kept in memory, answering the router's merchant
/// lookups in tests and local runs.
pub struct StubRegistry {
    merchants: Store<Vec<u8>, MerchantMetadata>,
}

impl View for StubRegistry {
    type V = Map<Seq<u8>, MerchantMetadata>;

    closed spec fn view(&self) -> Map<Seq<u8>, MerchantMetadata> {
        self.merchants@
    }
}

impl StubRegistry {
    /// A registry with no merchants.
    pub fn new() -> (r: Self)
        ensures
            r@ == Map::<Seq<u8>, MerchantMetadata>::empty(),
    {
        StubRegistry { merchants: Store::new() }
    }

    /// Stores the metadata of `merchant_id`, replacing any earlier entry.
    pub fn set_merchant(&mut self, merchant_id: Vec<u8>, meta: MerchantMetadata)
        ensures
            final(self)@ == old(self)@.insert(merchant_id@, meta),
    {
        self.merchants.insert(merchant_id, meta);
    }

    /// The metadata of `merchant_id`, if registered.
    pub fn get_merchant(&self, merchant_id: &Vec<u8>) -> (r: Option<MerchantMetadata>)
        ensures
            match r {
                Some(m) => self@.contains_key(merchant_id@) && m == self@[merchant_id@],
                None => !self@.contains_key(merchant_id@),
            },
    {
        match self.merchants.get(merchant_id) {
            Some(m) => Some(*m),
            None => None,
        }
    }
}

/// A vault that accepts every credit.
pub struct StubVault;

impl StubVault {
    /// Credits `amount` to `merchant` and reports the amount credited.
    pub fn credit(&self, merchant: Address, amount: i128) -> (r: i128)
        ensures
            r == amount,
    {
        amount
    }
}

/// An FX router that swaps one for one: the recipient receives exactly the
/// amount sent, in the destination asset.
pub struct StubFxRouter;

impl StubFxRouter {
    /// The answers of a one-for-one swap of `send_amount` for `recipient`,
    /// whose balance of the destination asset was `recipient_balance`.
    pub fn swap(
        &self,
        recipient: Address,
        send_asset: Address,
        send_amount: i128,
        dest_asset: Address,
        min_receive: i128,
        recipient_balance: i128,
    ) -> (r: FxAnswers)
        requires
            i128::MIN <= recipient_balance + send_amount <= i128::MAX,
        ensures
            r.quoted == send_amount,
            r.balance_before == recipient_balance,
            r.balance_after == recipient_balance + send_amount,
    {
        FxAnswers { quoted: send_amount, balance_before: recipient_balance, balance_after: recipient_balance + send_amount }
    }
}

} // verus!
