//! The cross-chain bridge contract: whitelisted relayers release tokens for
//! transfers locked on an EVM chain (inbound), and users lock tokens for
//! transfers to an EVM chain that a relayer confirms or that time out and
//! are refunded (outbound).

use vstd::prelude::*;
use vstd::array::ArrayAdditionalExecFns;
use crate::chain::{authorized, Address, Fault, Ledger, ReentrancyGuard};
use crate::store::Store;
use crate::text::str_eq;

verus! {

/// Ledgers before an unconfirmed outbound transfer can be refunded
/// (about 7 days at 5 s per ledger).
pub const OUTBOUND_TIMEOUT_LEDGERS: u32 = 120960;

/// Length of an EVM address in bytes.
pub const EVM_ADDRESS_LEN: usize = 20;

#[derive(Clone, Copy, Debug, PartialEq, Eq, Structural)]
pub enum Chain {
    Ethereum,
    Polygon,
}

#[derive(Clone, Copy, Debug, PartialEq, Eq, Structural)]
pub enum OutboundStatus {
    Pending,
    Confirmed,
    Refunded,
}

#[derive(Clone, Copy, Debug)]
pub struct OutboundTransfer {
    pub id: u64,
    pub sender: Address,
    pub dest_chain: Chain,
    /// The EVM destination address.
    pub dest_address: [u8; 20],
    pub amount: i128,
    pub created_ledger: u32,
    pub timeout_ledger: u32,
    pub status: OutboundStatus,
}

#[derive(Clone, Copy, Debug, PartialEq, Eq, Structural)]
pub enum BridgeError {
    AlreadyInitialized,
    NotInitialized,
    Unauthorized,
    ContractPaused,
    Reentrant,
    UnsupportedChain,
    AmountTooLow,
    AmountTooHigh,
    NonceAlreadyUsed,
    TransferNotFound,
    TransferNotPending,
    TimeoutNotReached,
    TimeoutAlreadyExpired,
    InvalidDestAddress,
    RelayerAlreadyAdded,
    RelayerNotFound,
    InvalidAmountLimits,
}

/// What a bridge invocation announces.
#[derive(Clone, Debug)]
pub enum BridgeEvent {
    RelayerAdded(Address),
    RelayerRemoved(Address),
    Paused,
    Unpaused,
    Limits { min_amount: i128, max_amount: i128 },
    Inbound { nonce: Vec<u8>, src_chain: String, evm_tx: Vec<u8>, recipient: Address, amount: i128 },
    Locked {
        id: u64,
        sender: Address,
        dest_chain: String,
        dest_address: [u8; 20],
        amount: i128,
        timeout_ledger: u32,
    },
    Confirmed { id: u64, evm_tx: Vec<u8>, amount: i128 },
    Refunded { id: u64, sender: Address, amount: i128 },
    AdminTransferred(Address),
}

/// What a bridge invocation does outside its own storage, in order.
#[derive(Clone, Debug)]
pub enum BridgeEffect {
    Transfer { token: Address, from: Address, to: Address, amount: i128 },
    /// The storage entry of outbound transfer `id` is kept alive for at least
    /// `threshold` ledgers, extended to `extend_to`.
    ExtendTtl { id: u64, threshold: u32, extend_to: u32 },
    Event(BridgeEvent),
}

/// [`BridgeEvent`] as a mathematical value.
pub enum BridgeEventView {
    RelayerAdded(Address),
    RelayerRemoved(Address),
    Paused,
    Unpaused,
    Limits { min_amount: i128, max_amount: i128 },
    Inbound { nonce: Seq<u8>, src_chain: Seq<char>, evm_tx: Seq<u8>, recipient: Address, amount: i128 },
    Locked {
        id: u64,
        sender: Address,
        dest_chain: Seq<char>,
        dest_address: Seq<u8>,
        amount: i128,
        timeout_ledger: u32,
    },
    Confirmed { id: u64, evm_tx: Seq<u8>, amount: i128 },
    Refunded { id: u64, sender: Address, amount: i128 },
    AdminTransferred(Address),
}

/// [`BridgeEffect`] as a mathematical value.
pub enum BridgeEffectView {
    Transfer { token: Address, from: Address, to: Address, amount: i128 },
    ExtendTtl { id: u64, threshold: u32, extend_to: u32 },
    Event(BridgeEventView),
}

impl View for BridgeEvent {
    type V = BridgeEventView;

    open spec fn view(&self) -> BridgeEventView {
        match self {
            BridgeEvent::RelayerAdded(a) => BridgeEventView::RelayerAdded(*a),
            BridgeEvent::RelayerRemoved(a) => BridgeEventView::RelayerRemoved(*a),
            BridgeEvent::Paused => BridgeEventView::Paused,
            BridgeEvent::Unpaused => BridgeEventView::Unpaused,
            BridgeEvent::Limits { min_amount, max_amount } => BridgeEventView::Limits {
                min_amount: *min_amount,
                max_amount: *max_amount,
            },
            BridgeEvent::Inbound { nonce, src_chain, evm_tx, recipient, amount } =>
                BridgeEventView::Inbound {
                nonce: nonce@,
                src_chain: src_chain@,
                evm_tx: evm_tx@,
                recipient: *recipient,
                amount: *amount,
            },
            BridgeEvent::Locked { id, sender, dest_chain, dest_address, amount, timeout_ledger } =>
                BridgeEventView::Locked {
                id: *id,
                sender: *sender,
                dest_chain: dest_chain@,
                dest_address: dest_address@,
                amount: *amount,
                timeout_ledger: *timeout_ledger,
            },
            BridgeEvent::Confirmed { id, evm_tx, amount } => BridgeEventView::Confirmed {
                id: *id,
                evm_tx: evm_tx@,
                amount: *amount,
            },
            BridgeEvent::Refunded { id, sender, amount } => BridgeEventView::Refunded {
                id: *id,
                sender: *sender,
                amount: *amount,
            },
            BridgeEvent::AdminTransferred(a) => BridgeEventView::AdminTransferred(*a),
        }
    }
}

impl View for BridgeEffect {
    type V = BridgeEffectView;

    open spec fn view(&self) -> BridgeEffectView {
        match self {
            BridgeEffect::Transfer { token, from, to, amount } => BridgeEffectView::Transfer {
                token: *token,
                from: *from,
                to: *to,
                amount: *amount,
            },
            BridgeEffect::ExtendTtl { id, threshold, extend_to } => BridgeEffectView::ExtendTtl {
                id: *id,
                threshold: *threshold,
                extend_to: *extend_to,
            },
            BridgeEffect::Event(ev) => BridgeEffectView::Event(ev@),
        }
    }
}

pub open spec fn bridge_effects_view(effects: Seq<BridgeEffect>) -> Seq<BridgeEffectView> {
    effects.map_values(|e: BridgeEffect| e@)
}

/// What `initialize` stores: the admin, the bridged token and the inclusive
/// per-transfer amount limits.
#[derive(Clone, Copy, Debug)]
pub struct BridgeSettings {
    pub admin: Address,
    pub token: Address,
    pub min_amount: i128,
    pub max_amount: i128,
}

/// The bridge's storage as a mathematical value. The settings are absent
/// before initialization; the timeout reads as its default until then.
pub struct BridgeBook {
    pub address: Address,
    pub settings: Option<BridgeSettings>,
    pub paused: bool,
    pub guard_held: bool,
    pub timeout_ledgers: u32,
    pub next_id: u64,
    pub total_inbound: i128,
    pub total_outbound: i128,
    pub relayers: Map<Address, bool>,
    pub used_nonces: Map<Seq<u8>, bool>,
    pub outbound: Map<u64, OutboundTransfer>,
}

pub open spec fn bridge_fault(e: BridgeError) -> Fault<BridgeError> {
    Fault::Contract(e)
}

/// The chain a chain symbol names.
pub open spec fn chain_named(symbol: Seq<char>) -> Option<Chain> {
    if symbol == "ethereum"@ {
        Some(Chain::Ethereum)
    } else if symbol == "polygon"@ {
        Some(Chain::Polygon)
    } else {
        None
    }
}

/// Why `amount` is outside the configured limits, if it is.
pub open spec fn amount_fault(c: BridgeSettings, amount: i128) -> Option<Fault<BridgeError>> {
    if amount < c.min_amount {
        Some(bridge_fault(BridgeError::AmountTooLow))
    } else if amount > c.max_amount {
        Some(bridge_fault(BridgeError::AmountTooHigh))
    } else {
        None
    }
}

/// Why `relayer` may not act, if it may not.
pub open spec fn relayer_fault(s: BridgeBook, auth: Seq<Address>, relayer: Address) -> Option<
    Fault<BridgeError>,
> {
    if !auth.contains(relayer) {
        Some(Fault::MissingAuth(relayer))
    } else if !(s.relayers.contains_key(relayer) && s.relayers[relayer]) {
        Some(bridge_fault(BridgeError::Unauthorized))
    } else {
        None
    }
}

/// Why the admin may not act, if it may not.
pub open spec fn bridge_admin_fault(s: BridgeBook, auth: Seq<Address>) -> Option<Fault<BridgeError>> {
    match s.settings {
        None => Some(bridge_fault(BridgeError::NotInitialized)),
        Some(c) => if auth.contains(c.admin) {
            None
        } else {
            Some(Fault::MissingAuth(c.admin))
        },
    }
}

pub open spec fn spec_bridge_initialize(
    s: BridgeBook,
    auth: Seq<Address>,
    admin: Address,
    token: Address,
    min_amount: i128,
    max_amount: i128,
    timeout_ledgers: u32,
) -> Result<(BridgeBook, Seq<BridgeEffectView>), Fault<BridgeError>> {
    if s.settings is Some {
        Err(bridge_fault(BridgeError::AlreadyInitialized))
    } else if min_amount <= 0 || max_amount < min_amount {
        Err(bridge_fault(BridgeError::InvalidAmountLimits))
    } else if !auth.contains(admin) {
        Err(Fault::MissingAuth(admin))
    } else {
        Ok((
            BridgeBook {
                settings: Some(BridgeSettings { admin, token, min_amount, max_amount }),
                paused: false,
                guard_held: false,
                next_id: 0,
                total_inbound: 0,
                total_outbound: 0,
                timeout_ledgers,
                ..s
            },
            seq![],
        ))
    }
}

pub open spec fn spec_add_relayer(s: BridgeBook, auth: Seq<Address>, relayer: Address) -> Result<
    (BridgeBook, Seq<BridgeEffectView>),
    Fault<BridgeError>,
> {
    match bridge_admin_fault(s, auth) {
        Some(f) => Err(f),
        None => if s.relayers.contains_key(relayer) && s.relayers[relayer] {
            Err(bridge_fault(BridgeError::RelayerAlreadyAdded))
        } else {
            Ok(
                (
                    BridgeBook { relayers: s.relayers.insert(relayer, true), ..s },
                    seq![BridgeEffectView::Event(BridgeEventView::RelayerAdded(relayer))],
                ),
            )
        },
    }
}

pub open spec fn spec_remove_relayer(s: BridgeBook, auth: Seq<Address>, relayer: Address) -> Result<
    (BridgeBook, Seq<BridgeEffectView>),
    Fault<BridgeError>,
> {
    match bridge_admin_fault(s, auth) {
        Some(f) => Err(f),
        None => if !(s.relayers.contains_key(relayer) && s.relayers[relayer]) {
            Err(bridge_fault(BridgeError::RelayerNotFound))
        } else {
            Ok(
                (
                    BridgeBook { relayers: s.relayers.remove(relayer), ..s },
                    seq![BridgeEffectView::Event(BridgeEventView::RelayerRemoved(relayer))],
                ),
            )
        },
    }
}

pub open spec fn spec_bridge_set_paused(s: BridgeBook, auth: Seq<Address>, paused: bool) -> Result<
    (BridgeBook, Seq<BridgeEffectView>),
    Fault<BridgeError>,
> {
    match bridge_admin_fault(s, auth) {
        Some(f) => Err(f),
        None => Ok(
            (
                BridgeBook { paused, ..s },
                seq![
                    BridgeEffectView::Event(
                        if paused {
                            BridgeEventView::Paused
                        } else {
                            BridgeEventView::Unpaused
                        },
                    ),
                ],
            ),
        ),
    }
}

pub open spec fn spec_set_limits(
    s: BridgeBook,
    auth: Seq<Address>,
    min_amount: i128,
    max_amount: i128,
) -> Result<(BridgeBook, Seq<BridgeEffectView>), Fault<BridgeError>> {
    match bridge_admin_fault(s, auth) {
        Some(f) => Err(f),
        None => if min_amount <= 0 || max_amount < min_amount {
            Err(bridge_fault(BridgeError::InvalidAmountLimits))
        } else {
            Ok(
                (
                    BridgeBook {
                        settings: Some(BridgeSettings { min_amount, max_amount, ..s.settings->0 }),
                        ..s
                    },
                    seq![BridgeEffectView::Event(BridgeEventView::Limits { min_amount, max_amount })],
                ),
            )
        },
    }
}

pub open spec fn spec_bridge_transfer_admin(s: BridgeBook, auth: Seq<Address>, new_admin: Address) -> Result<
    (BridgeBook, Seq<BridgeEffectView>),
    Fault<BridgeError>,
> {
    match bridge_admin_fault(s, auth) {
        Some(f) => Err(f),
        None => Ok(
            (
                BridgeBook { settings: Some(BridgeSettings { admin: new_admin, ..s.settings->0 }), ..s },
                seq![BridgeEffectView::Event(BridgeEventView::AdminTransferred(new_admin))],
            ),
        ),
    }
}

/// `claim_inbound`: a whitelisted relayer releases `amount` to `recipient`
/// for a transfer locked on `src_chain`, once per `nonce`.
pub open spec fn spec_claim_inbound(
    s: BridgeBook,
    auth: Seq<Address>,
    relayer: Address,
    nonce: Seq<u8>,
    src_chain: Seq<char>,
    evm_tx: Seq<u8>,
    recipient: Address,
    amount: i128,
) -> Result<(BridgeBook, Seq<BridgeEffectView>), Fault<BridgeError>> {
    if s.paused {
        Err(bridge_fault(BridgeError::ContractPaused))
    } else if s.settings is None {
        Err(bridge_fault(BridgeError::NotInitialized))
    } else if relayer_fault(s, auth, relayer) is Some {
        Err(relayer_fault(s, auth, relayer)->0)
    } else if chain_named(src_chain) is None {
        Err(bridge_fault(BridgeError::UnsupportedChain))
    } else if amount_fault(s.settings->0, amount) is Some {
        Err(amount_fault(s.settings->0, amount)->0)
    } else if s.used_nonces.contains_key(nonce) {
        Err(bridge_fault(BridgeError::NonceAlreadyUsed))
    } else if s.guard_held {
        Err(bridge_fault(BridgeError::Reentrant))
    } else {
        Ok((
            BridgeBook {
                used_nonces: s.used_nonces.insert(nonce, true),
                total_inbound: (s.total_inbound + amount) as i128,
                ..s
            },
            seq![
                BridgeEffectView::Transfer { token: s.settings->0.token, from: s.address, to: recipient, amount },
                BridgeEffectView::Event(
                    BridgeEventView::Inbound { nonce, src_chain, evm_tx, recipient, amount },
                ),
            ],
        ))
    }
}

/// `lock_outbound`: the sender locks `amount` for an EVM address on
/// `dest_chain`; the new transfer's id is the stored `next_id`.
pub open spec fn spec_lock_outbound(
    s: BridgeBook,
    auth: Seq<Address>,
    ledger: Ledger,
    sender: Address,
    dest_chain: Seq<char>,
    dest_address: Seq<u8>,
    amount: i128,
) -> Result<(BridgeBook, Seq<BridgeEffectView>, u64), Fault<BridgeError>> {
    if s.paused {
        Err(bridge_fault(BridgeError::ContractPaused))
    } else if s.settings is None {
        Err(bridge_fault(BridgeError::NotInitialized))
    } else if !auth.contains(sender) {
        Err(Fault::MissingAuth(sender))
    } else if chain_named(dest_chain) is None {
        Err(bridge_fault(BridgeError::UnsupportedChain))
    } else if amount_fault(s.settings->0, amount) is Some {
        Err(amount_fault(s.settings->0, amount)->0)
    } else if dest_address.len() != EVM_ADDRESS_LEN {
        Err(bridge_fault(BridgeError::InvalidDestAddress))
    } else if s.guard_held {
        Err(bridge_fault(BridgeError::Reentrant))
    } else {
        let id = s.next_id;
        let timeout = (ledger.sequence + s.timeout_ledgers) as u32;
        let t = OutboundTransfer {
            id,
            sender,
            dest_chain: chain_named(dest_chain)->0,
            dest_address: arbitrary_evm_address_with_view(dest_address),
            amount,
            created_ledger: ledger.sequence,
            timeout_ledger: timeout,
            status: OutboundStatus::Pending,
        };
        Ok((
            BridgeBook {
                next_id: (id + 1) as u64,
                outbound: s.outbound.insert(id, t),
                total_outbound: (s.total_outbound + amount) as i128,
                ..s
            },
            seq![
                BridgeEffectView::ExtendTtl {
                    id,
                    threshold: (s.timeout_ledgers + 1) as u32,
                    extend_to: (s.timeout_ledgers * 2 + 1) as u32,
                },
                BridgeEffectView::Transfer { token: s.settings->0.token, from: sender, to: s.address, amount },
                BridgeEffectView::Event(
                    BridgeEventView::Locked {
                        id,
                        sender,
                        dest_chain,
                        dest_address,
                        amount,
                        timeout_ledger: timeout,
                    },
                ),
            ],
            id,
        ))
    }
}

/// The 20-byte array whose view is `bytes` (of that length).
pub open spec fn arbitrary_evm_address_with_view(bytes: Seq<u8>) -> [u8; 20] {
    choose|a: [u8; 20]| a@ == bytes
}

/// `confirm_outbound`: a whitelisted relayer confirms a pending transfer
/// before its timeout.
pub open spec fn spec_confirm_outbound(
    s: BridgeBook,
    auth: Seq<Address>,
    ledger: Ledger,
    relayer: Address,
    id: u64,
    evm_tx: Seq<u8>,
) -> Result<(BridgeBook, Seq<BridgeEffectView>), Fault<BridgeError>> {
    if s.paused {
        Err(bridge_fault(BridgeError::ContractPaused))
    } else if s.settings is None {
        Err(bridge_fault(BridgeError::NotInitialized))
    } else if relayer_fault(s, auth, relayer) is Some {
        Err(relayer_fault(s, auth, relayer)->0)
    } else if !s.outbound.contains_key(id) {
        Err(bridge_fault(BridgeError::TransferNotFound))
    } else if s.outbound[id].status != OutboundStatus::Pending {
        Err(bridge_fault(BridgeError::TransferNotPending))
    } else if ledger.sequence > s.outbound[id].timeout_ledger {
        Err(bridge_fault(BridgeError::TimeoutAlreadyExpired))
    } else {
        let t = OutboundTransfer { status: OutboundStatus::Confirmed, ..s.outbound[id] };
        Ok((
            BridgeBook { outbound: s.outbound.insert(id, t), ..s },
            seq![
                BridgeEffectView::ExtendTtl {
                    id,
                    threshold: (s.timeout_ledgers + 1) as u32,
                    extend_to: (s.timeout_ledgers * 2 + 1) as u32,
                },
                BridgeEffectView::Event(BridgeEventView::Confirmed { id, evm_tx, amount: t.amount }),
            ],
        ))
    }
}

/// `refund_outbound`: anyone returns a pending transfer to its sender once
/// its timeout has passed.
pub open spec fn spec_refund_outbound(s: BridgeBook, ledger: Ledger, id: u64) -> Result<
    (BridgeBook, Seq<BridgeEffectView>),
    Fault<BridgeError>,
> {
    if s.settings is None {
        Err(bridge_fault(BridgeError::NotInitialized))
    } else if !s.outbound.contains_key(id) {
        Err(bridge_fault(BridgeError::TransferNotFound))
    } else if s.outbound[id].status != OutboundStatus::Pending {
        Err(bridge_fault(BridgeError::TransferNotPending))
    } else if ledger.sequence <= s.outbound[id].timeout_ledger {
        Err(bridge_fault(BridgeError::TimeoutNotReached))
    } else if s.guard_held {
        Err(bridge_fault(BridgeError::Reentrant))
    } else {
        let t = OutboundTransfer { status: OutboundStatus::Refunded, ..s.outbound[id] };
        Ok((
            BridgeBook { outbound: s.outbound.insert(id, t), ..s },
            seq![
                BridgeEffectView::ExtendTtl {
                    id,
                    threshold: (s.timeout_ledgers + 1) as u32,
                    extend_to: (s.timeout_ledgers * 2 + 1) as u32,
                },
                BridgeEffectView::Transfer { token: s.settings->0.token, from: s.address, to: t.sender, amount: t.amount },
                BridgeEffectView::Event(BridgeEventView::Refunded { id, sender: t.sender, amount: t.amount }),
            ],
        ))
    }
}

/// The timeout arithmetic for storage lifetimes stays within `u32`.
pub open spec fn ttl_fits(s: BridgeBook) -> bool {
    s.timeout_ledgers * 2 + 1 <= u32::MAX
}

pub open spec fn observed_bridge(r: Result<Vec<BridgeEffect>, Fault<BridgeError>>, after: BridgeBook) -> Result<
    (BridgeBook, Seq<BridgeEffectView>),
    Fault<BridgeError>,
> {
    match r {
        Ok(effects) => Ok((after, bridge_effects_view(effects@))),
        Err(e) => Err(e),
    }
}


/// One invocation of a state-changing entry point of the bridge.
pub enum BridgeCall {
    Initialize { admin: Address, token: Address, min_amount: i128, max_amount: i128, timeout_ledgers: u32 },
    AddRelayer { relayer: Address },
    RemoveRelayer { relayer: Address },
    SetPaused { paused: bool },
    SetLimits { min_amount: i128, max_amount: i128 },
    ClaimInbound {
        relayer: Address,
        nonce: Seq<u8>,
        src_chain: Seq<char>,
        evm_tx: Seq<u8>,
        recipient: Address,
        amount: i128,
    },
    LockOutbound { sender: Address, dest_chain: Seq<char>, dest_address: Seq<u8>, amount: i128 },
    ConfirmOutbound { relayer: Address, id: u64, evm_tx: Seq<u8> },
    RefundOutbound { id: u64 },
    TransferAdmin { new_admin: Address },
}

/// The outcome of any state-changing invocation of the bridge.
pub open spec fn spec_bridge_step(s: BridgeBook, auth: Seq<Address>, ledger: Ledger, call: BridgeCall) -> Result<
    (BridgeBook, Seq<BridgeEffectView>),
    Fault<BridgeError>,
> {
    match call {
        BridgeCall::Initialize { admin, token, min_amount, max_amount, timeout_ledgers } =>
            spec_bridge_initialize(s, auth, admin, token, min_amount, max_amount, timeout_ledgers),
        BridgeCall::AddRelayer { relayer } => spec_add_relayer(s, auth, relayer),
        BridgeCall::RemoveRelayer { relayer } => spec_remove_relayer(s, auth, relayer),
        BridgeCall::SetPaused { paused } => spec_bridge_set_paused(s, auth, paused),
        BridgeCall::SetLimits { min_amount, max_amount } => spec_set_limits(s, auth, min_amount, max_amount),
        BridgeCall::ClaimInbound { relayer, nonce, src_chain, evm_tx, recipient, amount } =>
            spec_claim_inbound(s, auth, relayer, nonce, src_chain, evm_tx, recipient, amount),
        BridgeCall::LockOutbound { sender, dest_chain, dest_address, amount } =>
            match spec_lock_outbound(s, auth, ledger, sender, dest_chain, dest_address, amount) {
                Ok((s2, effects, _)) => Ok((s2, effects)),
                Err(e) => Err(e),
            },
        BridgeCall::ConfirmOutbound { relayer, id, evm_tx } =>
            spec_confirm_outbound(s, auth, ledger, relayer, id, evm_tx),
        BridgeCall::RefundOutbound { id } => spec_refund_outbound(s, ledger, id),
        BridgeCall::TransferAdmin { new_admin } => spec_bridge_transfer_admin(s, auth, new_admin),
    }
}

/// Outbound ids below `next_id` only, each stored under its own id; before
/// initialization nothing is stored and nothing has moved.
pub open spec fn bridge_wf(s: BridgeBook) -> bool {
    &&& forall|id: u64| #[trigger] s.outbound.contains_key(id) ==> id < s.next_id && s.outbound[id].id == id
    &&& s.settings is None ==> s.next_id == 0 && s.total_inbound == 0 && s.total_outbound == 0
}

/// A used nonce stays used, and a claim with a used nonce never succeeds:
/// each EVM-side event is paid out at most once.
pub proof fn law_nonce_single_use(
    s: BridgeBook,
    auth: Seq<Address>,
    ledger: Ledger,
    call: BridgeCall,
    nonce: Seq<u8>,
)
    ensures
        spec_bridge_step(s, auth, ledger, call) matches Ok((s2, _)) ==> (s.used_nonces.contains_key(nonce)
            ==> s2.used_nonces.contains_key(nonce)),
        call matches BridgeCall::ClaimInbound { nonce: n, .. } ==> (n == nonce
            && s.used_nonces.contains_key(nonce) ==> spec_bridge_step(s, auth, ledger, call) is Err),
        call matches BridgeCall::ClaimInbound { nonce: n, .. } ==> (spec_bridge_step(s, auth, ledger, call)
            matches Ok((s2, _)) ==> s2.used_nonces.contains_key(n)),
{
}

/// Successful claims and locks move an amount within the configured
/// limits, were authorized (by a whitelisted relayer for claims and
/// confirmations, by the sender for locks), add exactly that amount to the
/// running totals, and never happen while the bridge is paused; no other
/// invocation changes the totals.
pub proof fn law_bridge_transfer_rules(s: BridgeBook, auth: Seq<Address>, ledger: Ledger, call: BridgeCall)
    requires
        bridge_wf(s),
    ensures
        spec_bridge_step(s, auth, ledger, call) matches Ok((s2, _)) ==> match call {
            BridgeCall::ClaimInbound { relayer, amount, .. } => {
                &&& !s.paused
                &&& s.settings is Some
                &&& s.settings->0.min_amount <= amount <= s.settings->0.max_amount
                &&& auth.contains(relayer) && s.relayers.contains_key(relayer) && s.relayers[relayer]
                &&& (i128::MIN <= s.total_inbound + amount <= i128::MAX ==> s2.total_inbound
                    == s.total_inbound + amount)
                &&& s2.total_outbound == s.total_outbound
            },
            BridgeCall::LockOutbound { sender, amount, .. } => {
                &&& !s.paused
                &&& s.settings is Some
                &&& s.settings->0.min_amount <= amount <= s.settings->0.max_amount
                &&& auth.contains(sender)
                &&& (i128::MIN <= s.total_outbound + amount <= i128::MAX ==> s2.total_outbound
                    == s.total_outbound + amount)
                &&& s2.total_inbound == s.total_inbound
            },
            BridgeCall::ConfirmOutbound { relayer, .. } => {
                &&& !s.paused
                &&& auth.contains(relayer) && s.relayers.contains_key(relayer) && s.relayers[relayer]
                &&& s2.total_inbound == s.total_inbound && s2.total_outbound == s.total_outbound
            },
            _ => s2.total_inbound == s.total_inbound && s2.total_outbound == s.total_outbound,
        },
{
    match call {
        BridgeCall::LockOutbound { sender, dest_chain, dest_address, amount } => {
            if spec_lock_outbound(s, auth, ledger, sender, dest_chain, dest_address, amount) is Ok {
                assert(s.settings is Some);
            }
        },
        _ => {},
    }
}

/// An outbound transfer is confirmed only while pending and not past its
/// timeout, refunded only while pending and past its timeout (then exactly
/// its amount goes back to its sender), and once confirmed or refunded it
/// never changes again.
pub proof fn law_outbound_lifecycle(s: BridgeBook, auth: Seq<Address>, ledger: Ledger, call: BridgeCall, id: u64)
    requires
        bridge_wf(s),
        s.outbound.contains_key(id),
    ensures
        spec_bridge_step(s, auth, ledger, call) matches Ok((s2, effects)) ==> {
            &&& s2.outbound.contains_key(id)
            &&& s.outbound[id].status != OutboundStatus::Pending ==> s2.outbound[id] == s.outbound[id]
            &&& s2.outbound[id].status == OutboundStatus::Confirmed && s.outbound[id].status
                == OutboundStatus::Pending ==> ledger.sequence <= s.outbound[id].timeout_ledger
            &&& s2.outbound[id].status == OutboundStatus::Refunded && s.outbound[id].status
                == OutboundStatus::Pending ==> {
                &&& ledger.sequence > s.outbound[id].timeout_ledger
                &&& effects.contains(
                    BridgeEffectView::Transfer {
                        token: s.settings->0.token,
                        from: s.address,
                        to: s.outbound[id].sender,
                        amount: s.outbound[id].amount,
                    },
                )
            }
            &&& s2.outbound[id].sender == s.outbound[id].sender
            &&& s2.outbound[id].amount == s.outbound[id].amount
        },
{
    assert(id < s.next_id);
    match call {
        BridgeCall::LockOutbound { sender, dest_chain, dest_address, amount } => {
            if spec_lock_outbound(s, auth, ledger, sender, dest_chain, dest_address, amount) is Ok {
                let s2 = spec_lock_outbound(s, auth, ledger, sender, dest_chain, dest_address, amount)->Ok_0.0;
                assert(s2.outbound[id] == s.outbound[id]);
            }
        },
        BridgeCall::ConfirmOutbound { relayer, id: cid, evm_tx } => {
            if spec_confirm_outbound(s, auth, ledger, relayer, cid, evm_tx) is Ok && cid == id {
                let s2 = spec_confirm_outbound(s, auth, ledger, relayer, cid, evm_tx)->Ok_0.0;
                assert(s2.outbound[id].status == OutboundStatus::Confirmed);
            }
        },
        BridgeCall::RefundOutbound { id: rid } => {
            if spec_refund_outbound(s, ledger, rid) is Ok && rid == id {
                let effects = spec_refund_outbound(s, ledger, rid)->Ok_0.1;
                assert(effects[1] == BridgeEffectView::Transfer {
                    token: s.settings->0.token,
                    from: s.address,
                    to: s.outbound[id].sender,
                    amount: s.outbound[id].amount,
                });
            }
        },
        _ => {},
    }
}

/// Every invocation keeps outbound ids unique: a new transfer takes the
/// next unused id and no stored transfer is ever overwritten by another.
pub proof fn law_outbound_ids_fresh(s: BridgeBook, auth: Seq<Address>, ledger: Ledger, call: BridgeCall)
    requires
        bridge_wf(s),
    ensures
        spec_bridge_step(s, auth, ledger, call) matches Ok((s2, _)) ==> (s.next_id < u64::MAX ==> bridge_wf(s2)),
        call matches BridgeCall::LockOutbound { sender, dest_chain, dest_address, amount } ==> (
        spec_lock_outbound(s, auth, ledger, sender, dest_chain, dest_address, amount) matches Ok(
            (s2, _, id),
        ) ==> id == s.next_id && !s.outbound.contains_key(id) && (s.next_id < u64::MAX ==> s2.next_id
            == s.next_id + 1)),
{
    assert(!s.outbound.contains_key(s.next_id));
    match call {
        BridgeCall::LockOutbound { sender, dest_chain, dest_address, amount } => {
            if spec_lock_outbound(s, auth, ledger, sender, dest_chain, dest_address, amount) is Ok {
                let s2 = spec_lock_outbound(s, auth, ledger, sender, dest_chain, dest_address, amount)->Ok_0.0;
                if s.next_id < u64::MAX {
                    assert forall|k: u64| #[trigger] s2.outbound.contains_key(k) implies k < s2.next_id
                        && s2.outbound[k].id == k by {
                        if k != s.next_id {
                            assert(s.outbound.contains_key(k));
                        }
                    }
                }
            }
        },
        BridgeCall::ConfirmOutbound { relayer, id: cid, evm_tx } => {
            if spec_confirm_outbound(s, auth, ledger, relayer, cid, evm_tx) is Ok {
                let s2 = spec_confirm_outbound(s, auth, ledger, relayer, cid, evm_tx)->Ok_0.0;
                assert forall|k: u64| #[trigger] s2.outbound.contains_key(k) implies k < s2.next_id
                    && s2.outbound[k].id == k by {
                    assert(s.outbound.contains_key(k));
                }
            }
        },
        BridgeCall::RefundOutbound { id: rid } => {
            if spec_refund_outbound(s, ledger, rid) is Ok {
                let s2 = spec_refund_outbound(s, ledger, rid)->Ok_0.0;
                assert forall|k: u64| #[trigger] s2.outbound.contains_key(k) implies k < s2.next_id
                    && s2.outbound[k].id == k by {
                    assert(s.outbound.contains_key(k));
                }
            }
        },
        _ => {},
    }
}

/// The bridge's storage.
pub struct CrossChainBridge {
    address: Address,
    settings: Option<BridgeSettings>,
    paused: bool,
    guard: ReentrancyGuard,
    timeout_ledgers: u32,
    next_id: u64,
    total_inbound: i128,
    total_outbound: i128,
    relayers: Store<Address, bool>,
    used_nonces: Store<Vec<u8>, bool>,
    outbound: Store<u64, OutboundTransfer>,
}

impl View for CrossChainBridge {
    type V = BridgeBook;

    closed spec fn view(&self) -> BridgeBook {
        BridgeBook {
            address: self.address,
            settings: self.settings,
            paused: self.paused,
            guard_held: self.guard.held(),
            timeout_ledgers: self.timeout_ledgers,
            next_id: self.next_id,
            total_inbound: self.total_inbound,
            total_outbound: self.total_outbound,
            relayers: self.relayers@,
            used_nonces: self.used_nonces@,
            outbound: self.outbound@,
        }
    }
}

/// The bytes of `v`, which has exactly twenty, as an array.
fn evm_address_of(v: &Vec<u8>) -> (a: [u8; 20])
    requires
        v@.len() == EVM_ADDRESS_LEN,
    ensures
        a@ == v@,
{
    let mut a: [u8; 20] = [0u8; 20];
    let mut i: usize = 0;
    while i < 20
        invariant
            v@.len() == 20,
            a@.len() == 20,
            i <= 20,
            forall|j: int| 0 <= j < i ==> a@[j] == v@[j],
        decreases 20 - i,
    {
        a[i] = v[i];
        i = i + 1;
    }
    assert(a@ =~= v@);
    a
}

fn copy_bytes(v: &Vec<u8>) -> (c: Vec<u8>)
    ensures
        c@ == v@,
{
    let mut c: Vec<u8> = Vec::new();
    let mut i: usize = 0;
    while i < v.len()
        invariant
            i <= v@.len(),
            c@ == v@.subrange(0, i as int),
        decreases v@.len() - i,
    {
        c.push(v[i]);
        i = i + 1;
        assert(c@ =~= v@.subrange(0, i as int));
    }
    assert(c@ =~= v@);
    c
}

impl CrossChainBridge {
    /// The reentrancy guard is free: between invocations it always is.
    pub fn guard_is_free(&self)
        ensures
            !self@.guard_held,
    {
        proof {
            use_type_invariant(&self.guard);
            ReentrancyGuard::lemma_free(self.guard);
        }
    }

    /// A freshly deployed, uninitialized bridge at `address`.
    pub fn new(address: Address) -> (c: Self)
        ensures
            c@.address == address,
            c@.settings is None,
            !c@.paused,
            !c@.guard_held,
            c@.timeout_ledgers == OUTBOUND_TIMEOUT_LEDGERS,
            c@.next_id == 0,
            c@.total_inbound == 0,
            c@.total_outbound == 0,
            c@.relayers == Map::<Address, bool>::empty(),
            c@.used_nonces == Map::<Seq<u8>, bool>::empty(),
            c@.outbound == Map::<u64, OutboundTransfer>::empty(),
    {
        CrossChainBridge {
            address,
            settings: None,
            paused: false,
            guard: ReentrancyGuard::new(),
            timeout_ledgers: OUTBOUND_TIMEOUT_LEDGERS,
            next_id: 0,
            total_inbound: 0,
            total_outbound: 0,
            relayers: Store::new(),
            used_nonces: Store::new(),
            outbound: Store::new(),
        }
    }

    /// Sets the admin, the bridged token, the amount limits and the outbound
    /// timeout; only once.
    pub fn initialize(
        &mut self,
        auth: &Vec<Address>,
        admin: Address,
        token: Address,
        min_amount: i128,
        max_amount: i128,
        timeout_ledgers: u32,
    ) -> (r: Result<Vec<BridgeEffect>, Fault<BridgeError>>)
        ensures
            !final(self)@.guard_held,
            observed_bridge(r, final(self)@) == spec_bridge_initialize(
                old(self)@,
                auth@,
                admin,
                token,
                min_amount,
                max_amount,
                timeout_ledgers,
            ),
            r is Err ==> final(self)@ == old(self)@,
    {
        proof {
            use_type_invariant(&self.guard);
            ReentrancyGuard::lemma_free(self.guard);
        }
        if self.settings.is_some() {
            return Err(Fault::Contract(BridgeError::AlreadyInitialized));
        }
        if min_amount <= 0 || max_amount < min_amount {
            return Err(Fault::Contract(BridgeError::InvalidAmountLimits));
        }
        if !authorized(auth, admin) {
            return Err(Fault::MissingAuth(admin));
        }
        self.settings = Some(BridgeSettings { admin, token, min_amount, max_amount });
        self.paused = false;
        self.guard = ReentrancyGuard::new();
        self.next_id = 0;
        self.total_inbound = 0;
        self.total_outbound = 0;
        self.timeout_ledgers = timeout_ledgers;
        let effects: Vec<BridgeEffect> = Vec::new();
        proof {
            assert(bridge_effects_view(effects@) =~= Seq::<BridgeEffectView>::empty());
        }
        Ok(effects)
    }

    fn check_admin(&self, auth: &Vec<Address>) -> (r: Result<(), Fault<BridgeError>>)
        ensures
            match r {
                Ok(()) => bridge_admin_fault(self@, auth@) is None,
                Err(f) => bridge_admin_fault(self@, auth@) == Some(f),
            },
    {
        match self.settings {
            None => Err(Fault::Contract(BridgeError::NotInitialized)),
            Some(c) => if authorized(auth, c.admin) {
                Ok(())
            } else {
                Err(Fault::MissingAuth(c.admin))
            },
        }
    }

    fn is_listed_relayer(&self, relayer: Address) -> (r: bool)
        ensures
            r == (self@.relayers.contains_key(relayer) && self@.relayers[relayer]),
    {
        match self.relayers.get(&relayer) {
            Some(b) => *b,
            None => false,
        }
    }

    fn check_relayer(&self, auth: &Vec<Address>, relayer: Address) -> (r: Result<(), Fault<BridgeError>>)
        ensures
            match r {
                Ok(()) => relayer_fault(self@, auth@, relayer) is None,
                Err(f) => relayer_fault(self@, auth@, relayer) == Some(f),
            },
    {
        if !authorized(auth, relayer) {
            return Err(Fault::MissingAuth(relayer));
        }
        if !self.is_listed_relayer(relayer) {
            return Err(Fault::Contract(BridgeError::Unauthorized));
        }
        Ok(())
    }

    fn check_amount(c: &BridgeSettings, amount: i128) -> (r: Result<(), Fault<BridgeError>>)
        ensures
            match r {
                Ok(()) => amount_fault(*c, amount) is None,
                Err(f) => amount_fault(*c, amount) == Some(f),
            },
    {
        if amount < c.min_amount {
            return Err(Fault::Contract(BridgeError::AmountTooLow));
        }
        if amount > c.max_amount {
            return Err(Fault::Contract(BridgeError::AmountTooHigh));
        }
        Ok(())
    }

    /// Adds `relayer` to the whitelist; admin only.
    pub fn add_relayer(&mut self, auth: &Vec<Address>, relayer: Address) -> (r: Result<
        Vec<BridgeEffect>,
        Fault<BridgeError>,
    >)
        ensures
            !final(self)@.guard_held,
            observed_bridge(r, final(self)@) == spec_add_relayer(old(self)@, auth@, relayer),
            r is Err ==> final(self)@ == old(self)@,
    {
        proof {
            use_type_invariant(&self.guard);
            ReentrancyGuard::lemma_free(self.guard);
        }
        self.check_admin(auth)?;
        if self.is_listed_relayer(relayer) {
            return Err(Fault::Contract(BridgeError::RelayerAlreadyAdded));
        }
        self.relayers.insert(relayer, true);
        let mut effects: Vec<BridgeEffect> = Vec::new();
        effects.push(BridgeEffect::Event(BridgeEvent::RelayerAdded(relayer)));
        proof {
            assert(bridge_effects_view(effects@) =~= seq![
                BridgeEffectView::Event(BridgeEventView::RelayerAdded(relayer)),
            ]);
        }
        Ok(effects)
    }

    /// Removes `relayer` from the whitelist; admin only.
    pub fn remove_relayer(&mut self, auth: &Vec<Address>, relayer: Address) -> (r: Result<
        Vec<BridgeEffect>,
        Fault<BridgeError>,
    >)
        ensures
            !final(self)@.guard_held,
            observed_bridge(r, final(self)@) == spec_remove_relayer(old(self)@, auth@, relayer),
            r is Err ==> final(self)@ == old(self)@,
    {
        proof {
            use_type_invariant(&self.guard);
            ReentrancyGuard::lemma_free(self.guard);
        }
        self.check_admin(auth)?;
        if !self.is_listed_relayer(relayer) {
            return Err(Fault::Contract(BridgeError::RelayerNotFound));
        }
        self.relayers.remove(&relayer);
        let mut effects: Vec<BridgeEffect> = Vec::new();
        effects.push(BridgeEffect::Event(BridgeEvent::RelayerRemoved(relayer)));
        proof {
            assert(bridge_effects_view(effects@) =~= seq![
                BridgeEffectView::Event(BridgeEventView::RelayerRemoved(relayer)),
            ]);
        }
        Ok(effects)
    }

    /// Halts inbound claims, outbound locks and confirmations; admin only.
    pub fn pause(&mut self, auth: &Vec<Address>) -> (r: Result<Vec<BridgeEffect>, Fault<BridgeError>>)
        ensures
            !final(self)@.guard_held,
            observed_bridge(r, final(self)@) == spec_bridge_set_paused(old(self)@, auth@, true),
            r is Err ==> final(self)@ == old(self)@,
    {
        proof {
            use_type_invariant(&self.guard);
            ReentrancyGuard::lemma_free(self.guard);
        }
        self.check_admin(auth)?;
        self.paused = true;
        let mut effects: Vec<BridgeEffect> = Vec::new();
        effects.push(BridgeEffect::Event(BridgeEvent::Paused));
        proof {
            assert(bridge_effects_view(effects@) =~= seq![BridgeEffectView::Event(BridgeEventView::Paused)]);
        }
        Ok(effects)
    }

    /// Resumes operations; admin only.
    pub fn unpause(&mut self, auth: &Vec<Address>) -> (r: Result<Vec<BridgeEffect>, Fault<BridgeError>>)
        ensures
            !final(self)@.guard_held,
            observed_bridge(r, final(self)@) == spec_bridge_set_paused(old(self)@, auth@, false),
            r is Err ==> final(self)@ == old(self)@,
    {
        proof {
            use_type_invariant(&self.guard);
            ReentrancyGuard::lemma_free(self.guard);
        }
        self.check_admin(auth)?;
        self.paused = false;
        let mut effects: Vec<BridgeEffect> = Vec::new();
        effects.push(BridgeEffect::Event(BridgeEvent::Unpaused));
        proof {
            assert(bridge_effects_view(effects@) =~= seq![BridgeEffectView::Event(BridgeEventView::Unpaused)]);
        }
        Ok(effects)
    }

    /// Replaces the per-transfer amount limits; admin only.
    pub fn set_limits(&mut self, auth: &Vec<Address>, min_amount: i128, max_amount: i128) -> (r:
        Result<Vec<BridgeEffect>, Fault<BridgeError>>)
        ensures
            !final(self)@.guard_held,
            observed_bridge(r, final(self)@) == spec_set_limits(
                old(self)@,
                auth@,
                min_amount,
                max_amount,
            ),
            r is Err ==> final(self)@ == old(self)@,
    {
        proof {
            use_type_invariant(&self.guard);
            ReentrancyGuard::lemma_free(self.guard);
        }
        self.check_admin(auth)?;
        if min_amount <= 0 || max_amount < min_amount {
            return Err(Fault::Contract(BridgeError::InvalidAmountLimits));
        }
        let c = match self.settings {
            Some(c) => c,
            None => {
                return Err(Fault::Contract(BridgeError::NotInitialized));
            },
        };
        self.settings = Some(BridgeSettings { min_amount, max_amount, ..c });
        let mut effects: Vec<BridgeEffect> = Vec::new();
        effects.push(BridgeEffect::Event(BridgeEvent::Limits { min_amount, max_amount }));
        proof {
            assert(bridge_effects_view(effects@) =~= seq![
                BridgeEffectView::Event(BridgeEventView::Limits { min_amount, max_amount }),
            ]);
        }
        Ok(effects)
    }

    /// Releases `amount` to `recipient` for a transfer locked on
    /// `src_chain`; a whitelisted relayer only, once per `nonce`.
    pub fn claim_inbound(
        &mut self,
        auth: &Vec<Address>,
        relayer: Address,
        nonce: Vec<u8>,
        src_chain: String,
        evm_tx: Vec<u8>,
        recipient: Address,
        amount: i128,
    ) -> (r: Result<Vec<BridgeEffect>, Fault<BridgeError>>)
        requires
            old(self)@.total_inbound + amount <= i128::MAX,
            old(self)@.total_inbound + amount >= i128::MIN,
        ensures
            !final(self)@.guard_held,
            observed_bridge(r, final(self)@) == spec_claim_inbound(
                old(self)@,
                auth@,
                relayer,
                nonce@,
                src_chain@,
                evm_tx@,
                recipient,
                amount,
            ),
            r is Err ==> final(self)@ == old(self)@,
    {
        proof {
            use_type_invariant(&self.guard);
            ReentrancyGuard::lemma_free(self.guard);
        }
        if self.paused {
            return Err(Fault::Contract(BridgeError::ContractPaused));
        }
        let c = match self.settings {
            Some(c) => c,
            None => {
                return Err(Fault::Contract(BridgeError::NotInitialized));
            },
        };
        self.check_relayer(auth, relayer)?;
        if !str_eq(src_chain.as_str(), "ethereum") && !str_eq(src_chain.as_str(), "polygon") {
            return Err(Fault::Contract(BridgeError::UnsupportedChain));
        }
        Self::check_amount(&c, amount)?;
        if self.used_nonces.contains_key(&nonce) {
            return Err(Fault::Contract(BridgeError::NonceAlreadyUsed));
        }
        if self.guard.is_held() {
            return Err(Fault::Contract(BridgeError::Reentrant));
        }
        let nonce_copy = copy_bytes(&nonce);
        self.used_nonces.insert(nonce, true);
        self.total_inbound = self.total_inbound + amount;
        let mut effects: Vec<BridgeEffect> = Vec::new();
        effects.push(BridgeEffect::Transfer { token: c.token, from: self.address, to: recipient, amount });
        let ghost chain_view = src_chain@;
        let ghost tx_view = evm_tx@;
        effects.push(
            BridgeEffect::Event(
                BridgeEvent::Inbound { nonce: nonce_copy, src_chain, evm_tx, recipient, amount },
            ),
        );
        proof {
            assert(bridge_effects_view(effects@) =~= seq![
                BridgeEffectView::Transfer { token: c.token, from: self@.address, to: recipient, amount },
                BridgeEffectView::Event(
                    BridgeEventView::Inbound { nonce: nonce_copy@, src_chain: chain_view, evm_tx: tx_view, recipient, amount },
                ),
            ]);
        }
        Ok(effects)
    }

    /// Locks `amount` from `sender` for the EVM address `dest_address` on
    /// `dest_chain`; returns the new transfer's id with the effects.
    pub fn lock_outbound(
        &mut self,
        auth: &Vec<Address>,
        ledger: &Ledger,
        sender: Address,
        dest_chain: String,
        dest_address: Vec<u8>,
        amount: i128,
    ) -> (r: Result<(u64, Vec<BridgeEffect>), Fault<BridgeError>>)
        requires
            old(self)@.next_id < u64::MAX,
            ledger.sequence + old(self)@.timeout_ledgers <= u32::MAX,
            ttl_fits(old(self)@),
            i128::MIN <= old(self)@.total_outbound + amount <= i128::MAX,
        ensures
            !final(self)@.guard_held,
            match r {
                Ok((id, effects)) => spec_lock_outbound(
                    old(self)@,
                    auth@,
                    *ledger,
                    sender,
                    dest_chain@,
                    dest_address@,
                    amount,
                ) == Ok::<(BridgeBook, Seq<BridgeEffectView>, u64), Fault<BridgeError>>(
                    (final(self)@, bridge_effects_view(effects@), id),
                ),
                Err(e) => spec_lock_outbound(
                    old(self)@,
                    auth@,
                    *ledger,
                    sender,
                    dest_chain@,
                    dest_address@,
                    amount,
                ) == Err::<(BridgeBook, Seq<BridgeEffectView>, u64), Fault<BridgeError>>(e)
                    && final(self)@ == old(self)@,
            },
    {
        proof {
            use_type_invariant(&self.guard);
            ReentrancyGuard::lemma_free(self.guard);
        }
        if self.paused {
            return Err(Fault::Contract(BridgeError::ContractPaused));
        }
        let c = match self.settings {
            Some(c) => c,
            None => {
                return Err(Fault::Contract(BridgeError::NotInitialized));
            },
        };
        if !authorized(auth, sender) {
            return Err(Fault::MissingAuth(sender));
        }
        let chain = if str_eq(dest_chain.as_str(), "ethereum") {
            Chain::Ethereum
        } else if str_eq(dest_chain.as_str(), "polygon") {
            Chain::Polygon
        } else {
            return Err(Fault::Contract(BridgeError::UnsupportedChain));
        };
        Self::check_amount(&c, amount)?;
        if dest_address.len() != EVM_ADDRESS_LEN {
            return Err(Fault::Contract(BridgeError::InvalidDestAddress));
        }
        if self.guard.is_held() {
            return Err(Fault::Contract(BridgeError::Reentrant));
        }
        let id = self.next_id;
        self.next_id = id + 1;
        let created = ledger.sequence;
        let timeout = created + self.timeout_ledgers;
        let evm_address = evm_address_of(&dest_address);
        proof {
            assert(evm_address == arbitrary_evm_address_with_view(dest_address@));
        }
        let transfer = OutboundTransfer {
            id,
            sender,
            dest_chain: chain,
            dest_address: evm_address,
            amount,
            created_ledger: created,
            timeout_ledger: timeout,
            status: OutboundStatus::Pending,
        };
        self.outbound.insert(id, transfer);
        let mut effects: Vec<BridgeEffect> = Vec::new();
        effects.push(
            BridgeEffect::ExtendTtl {
                id,
                threshold: self.timeout_ledgers + 1,
                extend_to: self.timeout_ledgers * 2 + 1,
            },
        );
        self.total_outbound = self.total_outbound + amount;
        effects.push(BridgeEffect::Transfer { token: c.token, from: sender, to: self.address, amount });
        let ghost chain_view = dest_chain@;
        effects.push(
            BridgeEffect::Event(
                BridgeEvent::Locked {
                    id,
                    sender,
                    dest_chain,
                    dest_address: evm_address,
                    amount,
                    timeout_ledger: timeout,
                },
            ),
        );
        proof {
            assert(bridge_effects_view(effects@) =~= seq![
                BridgeEffectView::ExtendTtl {
                    id,
                    threshold: (old(self)@.timeout_ledgers + 1) as u32,
                    extend_to: (old(self)@.timeout_ledgers * 2 + 1) as u32,
                },
                BridgeEffectView::Transfer { token: c.token, from: sender, to: self@.address, amount },
                BridgeEffectView::Event(
                    BridgeEventView::Locked {
                        id,
                        sender,
                        dest_chain: chain_view,
                        dest_address: dest_address@,
                        amount,
                        timeout_ledger: timeout,
                    },
                ),
            ]);
        }
        Ok((id, effects))
    }

    /// Confirms a pending outbound transfer before its timeout; a
    /// whitelisted relayer only.
    pub fn confirm_outbound(
        &mut self,
        auth: &Vec<Address>,
        ledger: &Ledger,
        relayer: Address,
        transfer_id: u64,
        evm_tx: Vec<u8>,
    ) -> (r: Result<Vec<BridgeEffect>, Fault<BridgeError>>)
        requires
            ttl_fits(old(self)@),
        ensures
            !final(self)@.guard_held,
            observed_bridge(r, final(self)@) == spec_confirm_outbound(
                old(self)@,
                auth@,
                *ledger,
                relayer,
                transfer_id,
                evm_tx@,
            ),
            r is Err ==> final(self)@ == old(self)@,
    {
        proof {
            use_type_invariant(&self.guard);
            ReentrancyGuard::lemma_free(self.guard);
        }
        if self.paused {
            return Err(Fault::Contract(BridgeError::ContractPaused));
        }
        if self.settings.is_none() {
            return Err(Fault::Contract(BridgeError::NotInitialized));
        }
        self.check_relayer(auth, relayer)?;
        let t: OutboundTransfer = match self.outbound.get(&transfer_id) {
            Some(t) => *t,
            None => {
                return Err(Fault::Contract(BridgeError::TransferNotFound));
            },
        };
        if t.status != OutboundStatus::Pending {
            return Err(Fault::Contract(BridgeError::TransferNotPending));
        }
        if ledger.sequence > t.timeout_ledger {
            return Err(Fault::Contract(BridgeError::TimeoutAlreadyExpired));
        }
        let mut confirmed = t;
        confirmed.status = OutboundStatus::Confirmed;
        self.outbound.insert(transfer_id, confirmed);
        let mut effects: Vec<BridgeEffect> = Vec::new();
        effects.push(
            BridgeEffect::ExtendTtl {
                id: transfer_id,
                threshold: self.timeout_ledgers + 1,
                extend_to: self.timeout_ledgers * 2 + 1,
            },
        );
        let ghost tx_view = evm_tx@;
        effects.push(
            BridgeEffect::Event(BridgeEvent::Confirmed { id: transfer_id, evm_tx, amount: t.amount }),
        );
        proof {
            assert(bridge_effects_view(effects@) =~= seq![
                BridgeEffectView::ExtendTtl {
                    id: transfer_id,
                    threshold: (self@.timeout_ledgers + 1) as u32,
                    extend_to: (self@.timeout_ledgers * 2 + 1) as u32,
                },
                BridgeEffectView::Event(BridgeEventView::Confirmed { id: transfer_id, evm_tx: tx_view, amount: t.amount }),
            ]);
        }
        Ok(effects)
    }

    /// Returns a timed-out pending transfer to its sender; anyone may call.
    pub fn refund_outbound(&mut self, ledger: &Ledger, transfer_id: u64) -> (r: Result<
        Vec<BridgeEffect>,
        Fault<BridgeError>,
    >)
        requires
            ttl_fits(old(self)@),
        ensures
            !final(self)@.guard_held,
            observed_bridge(r, final(self)@) == spec_refund_outbound(old(self)@, *ledger, transfer_id),
            r is Err ==> final(self)@ == old(self)@,
    {
        proof {
            use_type_invariant(&self.guard);
            ReentrancyGuard::lemma_free(self.guard);
        }
        let c = match self.settings {
            Some(c) => c,
            None => {
                return Err(Fault::Contract(BridgeError::NotInitialized));
            },
        };
        let t: OutboundTransfer = match self.outbound.get(&transfer_id) {
            Some(t) => *t,
            None => {
                return Err(Fault::Contract(BridgeError::TransferNotFound));
            },
        };
        if t.status != OutboundStatus::Pending {
            return Err(Fault::Contract(BridgeError::TransferNotPending));
        }
        if ledger.sequence <= t.timeout_ledger {
            return Err(Fault::Contract(BridgeError::TimeoutNotReached));
        }
        if self.guard.is_held() {
            return Err(Fault::Contract(BridgeError::Reentrant));
        }
        let mut refunded = t;
        refunded.status = OutboundStatus::Refunded;
        self.outbound.insert(transfer_id, refunded);
        let mut effects: Vec<BridgeEffect> = Vec::new();
        effects.push(
            BridgeEffect::ExtendTtl {
                id: transfer_id,
                threshold: self.timeout_ledgers + 1,
                extend_to: self.timeout_ledgers * 2 + 1,
            },
        );
        effects.push(
            BridgeEffect::Transfer { token: c.token, from: self.address, to: t.sender, amount: t.amount },
        );
        effects.push(
            BridgeEffect::Event(BridgeEvent::Refunded { id: transfer_id, sender: t.sender, amount: t.amount }),
        );
        proof {
            assert(bridge_effects_view(effects@) =~= seq![
                BridgeEffectView::ExtendTtl {
                    id: transfer_id,
                    threshold: (self@.timeout_ledgers + 1) as u32,
                    extend_to: (self@.timeout_ledgers * 2 + 1) as u32,
                },
                BridgeEffectView::Transfer { token: c.token, from: self@.address, to: t.sender, amount: t.amount },
                BridgeEffectView::Event(BridgeEventView::Refunded { id: transfer_id, sender: t.sender, amount: t.amount }),
            ]);
        }
        Ok(effects)
    }

    /// Hands the admin role to `new_admin`; admin only.
    pub fn transfer_admin(&mut self, auth: &Vec<Address>, new_admin: Address) -> (r: Result<
        Vec<BridgeEffect>,
        Fault<BridgeError>,
    >)
        ensures
            !final(self)@.guard_held,
            observed_bridge(r, final(self)@) == spec_bridge_transfer_admin(old(self)@, auth@, new_admin),
            r is Err ==> final(self)@ == old(self)@,
    {
        proof {
            use_type_invariant(&self.guard);
            ReentrancyGuard::lemma_free(self.guard);
        }
        self.check_admin(auth)?;
        let c = match self.settings {
            Some(c) => c,
            None => {
                return Err(Fault::Contract(BridgeError::NotInitialized));
            },
        };
        self.settings = Some(BridgeSettings { admin: new_admin, ..c });
        let mut effects: Vec<BridgeEffect> = Vec::new();
        effects.push(BridgeEffect::Event(BridgeEvent::AdminTransferred(new_admin)));
        proof {
            assert(bridge_effects_view(effects@) =~= seq![
                BridgeEffectView::Event(BridgeEventView::AdminTransferred(new_admin)),
            ]);
        }
        Ok(effects)
    }

    /// The outbound transfer stored under `transfer_id`.
    pub fn get_outbound(&self, transfer_id: u64) -> (r: Result<OutboundTransfer, BridgeError>)
        ensures
            match r {
                Ok(t) => self@.outbound.contains_key(transfer_id) && t == self@.outbound[transfer_id],
                Err(e) => !self@.outbound.contains_key(transfer_id) && e == BridgeError::TransferNotFound,
            },
    {
        match self.outbound.get(&transfer_id) {
            Some(t) => Ok(*t),
            None => Err(BridgeError::TransferNotFound),
        }
    }

    pub fn is_nonce_used(&self, nonce: &Vec<u8>) -> (r: bool)
        ensures
            r == self@.used_nonces.contains_key(nonce@),
    {
        self.used_nonces.contains_key(nonce)
    }

    pub fn is_relayer(&self, relayer: Address) -> (r: bool)
        ensures
            r == (self@.relayers.contains_key(relayer) && self@.relayers[relayer]),
    {
        self.is_listed_relayer(relayer)
    }

    pub fn is_paused(&self) -> (r: bool)
        ensures
            r == self@.paused,
    {
        self.paused
    }

    /// The amount limits, `(0, 0)` before initialization.
    pub fn get_limits(&self) -> (r: (i128, i128))
        ensures
            r == match self@.settings {
                Some(c) => (c.min_amount, c.max_amount),
                None => (0i128, 0i128),
            },
    {
        match self.settings {
            Some(c) => (c.min_amount, c.max_amount),
            None => (0, 0),
        }
    }

    pub fn get_total_inbound(&self) -> (r: i128)
        ensures
            r == self@.total_inbound,
    {
        self.total_inbound
    }

    pub fn get_total_outbound(&self) -> (r: i128)
        ensures
            r == self@.total_outbound,
    {
        self.total_outbound
    }

    pub fn get_admin(&self) -> (r: Result<Address, BridgeError>)
        ensures
            match self@.settings {
                Some(c) => r == Ok::<Address, BridgeError>(c.admin),
                None => r == Err::<Address, BridgeError>(BridgeError::NotInitialized),
            },
    {
        match self.settings {
            Some(c) => Ok(c.admin),
            None => Err(BridgeError::NotInitialized),
        }
    }

    pub fn get_token(&self) -> (r: Result<Address, BridgeError>)
        ensures
            match self@.settings {
                Some(c) => r == Ok::<Address, BridgeError>(c.token),
                None => r == Err::<Address, BridgeError>(BridgeError::NotInitialized),
            },
    {
        match self.settings {
            Some(c) => Ok(c.token),
            None => Err(BridgeError::NotInitialized),
        }
    }
}

/// A successful lock records exactly what was asked: a pending transfer of
/// `amount` from `sender`, bound for the chain the request names (Polygon
/// for `polygon`, Ethereum for `ethereum`; no other name is accepted), made
/// at the current ledger and timing out `timeout_ledgers` later, under the
/// id returned; the outbound total grows by `amount`.
pub proof fn law_lock_records_request(
    s: BridgeBook,
    auth: Seq<Address>,
    ledger: Ledger,
    sender: Address,
    dest_chain: Seq<char>,
    dest_address: Seq<u8>,
    amount: i128,
)
    requires
        ledger.sequence + s.timeout_ledgers <= u32::MAX,
        i128::MIN <= s.total_outbound + amount <= i128::MAX,
    ensures
        spec_lock_outbound(s, auth, ledger, sender, dest_chain, dest_address, amount) matches Ok((s2, effects, id))
            ==> {
            &&& dest_chain == "ethereum"@ || dest_chain == "polygon"@
            &&& s2.outbound.contains_key(id)
            &&& s2.outbound[id].id == id
            &&& s2.outbound[id].sender == sender
            &&& s2.outbound[id].dest_chain == (if dest_chain == "polygon"@ {
                Chain::Polygon
            } else {
                Chain::Ethereum
            })
            &&& s2.outbound[id].amount == amount
            &&& s2.outbound[id].created_ledger == ledger.sequence
            &&& s2.outbound[id].timeout_ledger == ledger.sequence + s.timeout_ledgers
            &&& s2.outbound[id].status == OutboundStatus::Pending
            &&& s2.total_outbound == s.total_outbound + amount
            &&& auth.contains(sender)
        },
{
    reveal_strlit("ethereum");
    reveal_strlit("polygon");
    assert("ethereum"@.len() == 8 && "polygon"@.len() == 7);
}

} // verus!
