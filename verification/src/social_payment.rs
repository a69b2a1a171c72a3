//! The social payment contract: peer-to-peer payments in the configured
//! Naira token, with a platform fee on public payments, and likes and
//! comments on payments.

use vstd::prelude::*;
use crate::chain::{authorized, observed_views, settled, Address, Fault};
use crate::text::{blank, is_blank};
use vstd::utf8::encode_utf8;

verus! {

/// The fee coefficient, in basis points, until the admin sets one.
pub const DEFAULT_FEE_COEFFICIENT: u32 = 10;

/// The largest fee coefficient the admin may set: the whole amount.
pub const MAX_FEE_COEFFICIENT: u32 = 10000;

/// The longest comment accepted, in bytes.
pub const MAX_COMMENT_BYTES: usize = 120;

#[derive(Clone, Copy, Debug, PartialEq, Eq, Structural)]
pub enum Visibility {
    Public,
    Friends,
    Private,
}

/// Why a social payment invocation failed.
#[derive(Clone, Copy, Debug, PartialEq, Eq, Structural)]
pub enum SocialPaymentError {
    AlreadyInitialized,
    NotInitialized,
    FeeCoefficientTooHigh,
    NairaTokenNotInitialized,
    AmountNotPositive,
    /// The payment is not in the configured Naira token.
    WrongToken,
    TreasuryNotInitialized,
    /// The comment is empty or white space only.
    EmptyComment,
    CommentTooLong,
}

/// The event a payment announces.
#[derive(Debug)]
pub struct SocialPaymentEvent {
    pub sender: Address,
    pub receiver: Address,
    pub amount: i128,
    pub memo: String,
    pub visibility: Visibility,
}

pub struct SocialPaymentEventView {
    pub sender: Address,
    pub receiver: Address,
    pub amount: i128,
    pub memo: Seq<char>,
    pub visibility: Visibility,
}

impl View for SocialPaymentEvent {
    type V = SocialPaymentEventView;

    open spec fn view(&self) -> SocialPaymentEventView {
        SocialPaymentEventView {
            sender: self.sender,
            receiver: self.receiver,
            amount: self.amount,
            memo: self.memo@,
            visibility: self.visibility,
        }
    }
}

/// What a social payment invocation does outside its own storage, in order.
#[derive(Debug)]
pub enum SocialEffect {
    Transfer { token: Address, from: Address, to: Address, amount: i128 },
    Paid(SocialPaymentEvent),
    Liked { tx_id: String, sender: Address },
    Commented { tx_id: String, comment: String },
}

pub enum SocialEffectView {
    Transfer { token: Address, from: Address, to: Address, amount: i128 },
    Paid(SocialPaymentEventView),
    Liked { tx_id: Seq<char>, sender: Address },
    Commented { tx_id: Seq<char>, comment: Seq<char> },
}

impl View for SocialEffect {
    type V = SocialEffectView;

    open spec fn view(&self) -> SocialEffectView {
        match self {
            SocialEffect::Transfer { token, from, to, amount } => SocialEffectView::Transfer {
                token: *token,
                from: *from,
                to: *to,
                amount: *amount,
            },
            SocialEffect::Paid(e) => SocialEffectView::Paid(e@),
            SocialEffect::Liked { tx_id, sender } => SocialEffectView::Liked { tx_id: tx_id@, sender: *sender },
            SocialEffect::Commented { tx_id, comment } => SocialEffectView::Commented {
                tx_id: tx_id@,
                comment: comment@,
            },
        }
    }
}

/// The contract's storage as a mathematical value.
#[derive(Clone, Copy, Debug)]
pub struct SocialBook {
    pub admin: Option<Address>,
    pub treasury: Option<Address>,
    pub fee_coefficient: Option<u32>,
    pub naira_token: Option<Address>,
}

/// The fee coefficient in force, in basis points.
pub open spec fn fee_coefficient_of(s: SocialBook) -> u32 {
    match s.fee_coefficient {
        Some(c) => c,
        None => DEFAULT_FEE_COEFFICIENT,
    }
}

/// The platform fee on a public payment of `amount`: `coefficient` basis
/// points of it, rounded down, but never less than 1.
pub open spec fn public_fee(amount: int, coefficient: int) -> int {
    let raw = amount * coefficient / 10000;
    if raw == 0 {
        1
    } else {
        raw
    }
}

/// The stored fee coefficient never exceeds the whole amount.
pub open spec fn social_wf(s: SocialBook) -> bool {
    fee_coefficient_of(s) <= MAX_FEE_COEFFICIENT
}

pub type SocialOutcome = Result<(SocialBook, Seq<SocialEffectView>), Fault<SocialPaymentError>>;

pub open spec fn social_fault(e: SocialPaymentError) -> Fault<SocialPaymentError> {
    Fault::Contract(e)
}

/// Why the admin may not act, if it may not.
pub open spec fn social_admin_fault(s: SocialBook, auth: Seq<Address>) -> Option<Fault<SocialPaymentError>> {
    match s.admin {
        None => Some(social_fault(SocialPaymentError::NotInitialized)),
        Some(a) => if auth.contains(a) {
            None
        } else {
            Some(Fault::MissingAuth(a))
        },
    }
}

pub open spec fn spec_social_initialize(s: SocialBook, admin: Address, treasury: Address) -> Result<
    SocialBook,
    Fault<SocialPaymentError>,
> {
    if s.admin is Some {
        Err(social_fault(SocialPaymentError::AlreadyInitialized))
    } else {
        Ok(SocialBook { admin: Some(admin), treasury: Some(treasury), ..s })
    }
}

pub open spec fn spec_set_treasury(s: SocialBook, auth: Seq<Address>, treasury: Address) -> Result<
    SocialBook,
    Fault<SocialPaymentError>,
> {
    match social_admin_fault(s, auth) {
        Some(f) => Err(f),
        None => Ok(SocialBook { treasury: Some(treasury), ..s }),
    }
}

pub open spec fn spec_set_naira_token(s: SocialBook, auth: Seq<Address>, token: Address) -> Result<
    SocialBook,
    Fault<SocialPaymentError>,
> {
    match social_admin_fault(s, auth) {
        Some(f) => Err(f),
        None => Ok(SocialBook { naira_token: Some(token), ..s }),
    }
}

pub open spec fn spec_set_fee_coefficient(s: SocialBook, auth: Seq<Address>, coefficient: u32) -> Result<
    SocialBook,
    Fault<SocialPaymentError>,
> {
    match social_admin_fault(s, auth) {
        Some(f) => Err(f),
        None => if coefficient > MAX_FEE_COEFFICIENT {
            Err(social_fault(SocialPaymentError::FeeCoefficientTooHigh))
        } else {
            Ok(SocialBook { fee_coefficient: Some(coefficient), ..s })
        },
    }
}

/// `pay`: `amount` of the Naira token from `sender` to `receiver`; a public
/// payment sends the platform fee to the treasury and the rest to the
/// receiver.
pub open spec fn spec_social_pay(
    s: SocialBook,
    auth: Seq<Address>,
    sender: Address,
    receiver: Address,
    token: Address,
    amount: i128,
    memo: Seq<char>,
    visibility: Visibility,
) -> SocialOutcome {
    let event = SocialEffectView::Paid(SocialPaymentEventView { sender, receiver, amount, memo, visibility });
    if !auth.contains(sender) {
        Err(Fault::MissingAuth(sender))
    } else if amount <= 0 {
        Err(social_fault(SocialPaymentError::AmountNotPositive))
    } else if s.naira_token is None {
        Err(social_fault(SocialPaymentError::NairaTokenNotInitialized))
    } else if token != s.naira_token->0 {
        Err(social_fault(SocialPaymentError::WrongToken))
    } else if visibility == Visibility::Public {
        if s.treasury is None {
            Err(social_fault(SocialPaymentError::TreasuryNotInitialized))
        } else {
            let fee = public_fee(amount as int, fee_coefficient_of(s) as int);
            Ok((
                s,
                seq![
                    SocialEffectView::Transfer { token, from: sender, to: receiver, amount: (amount - fee) as i128 },
                    SocialEffectView::Transfer { token, from: sender, to: s.treasury->0, amount: fee as i128 },
                    event,
                ],
            ))
        }
    } else {
        Ok((s, seq![SocialEffectView::Transfer { token, from: sender, to: receiver, amount }, event]))
    }
}

pub open spec fn spec_like_payment(s: SocialBook, auth: Seq<Address>, sender: Address, tx_id: Seq<char>) -> SocialOutcome {
    if !auth.contains(sender) {
        Err(Fault::MissingAuth(sender))
    } else {
        Ok((s, seq![SocialEffectView::Liked { tx_id, sender }]))
    }
}

pub open spec fn spec_comment_payment(
    s: SocialBook,
    auth: Seq<Address>,
    sender: Address,
    tx_id: Seq<char>,
    comment: Seq<char>,
) -> SocialOutcome {
    if !auth.contains(sender) {
        Err(Fault::MissingAuth(sender))
    } else if is_blank(comment) {
        Err(social_fault(SocialPaymentError::EmptyComment))
    } else if encode_utf8(comment).len() as usize > MAX_COMMENT_BYTES {
        Err(social_fault(SocialPaymentError::CommentTooLong))
    } else {
        Ok((s, seq![SocialEffectView::Commented { tx_id, comment }]))
    }
}

/// A public payment's fee is between 1 and the whole amount.
pub proof fn lemma_public_fee_bounds(amount: int, coefficient: int)
    requires
        amount > 0,
        0 <= coefficient <= 10000,
    ensures
        1 <= public_fee(amount, coefficient) <= amount,
{
    assert(amount * coefficient <= amount * 10000) by (nonlinear_arith)
        requires
            amount > 0,
            coefficient <= 10000,
    ;
    assert(amount * coefficient >= 0) by (nonlinear_arith)
        requires
            amount > 0,
            coefficient >= 0,
    ;
    assert(amount * coefficient / 10000 <= amount) by (nonlinear_arith)
        requires
            0 <= amount * coefficient <= amount * 10000,
    ;
}

/// A successful payment moves exactly `amount` out of the sender and
/// nothing else: all of it to the receiver, or, for a public payment, a fee
/// of at least 1 and at most the amount to the treasury and the rest to the
/// receiver. A payment in any token but the configured one fails.
pub proof fn law_payment_conserves_amount(
    s: SocialBook,
    auth: Seq<Address>,
    sender: Address,
    receiver: Address,
    token: Address,
    amount: i128,
    memo: Seq<char>,
    visibility: Visibility,
)
    requires
        social_wf(s),
    ensures
        spec_social_pay(s, auth, sender, receiver, token, amount, memo, visibility) matches Ok((s2, effects)) ==> {
            &&& s2 == s
            &&& amount > 0
            &&& s.naira_token == Some(token)
            &&& visibility == Visibility::Public ==> {
                let fee = public_fee(amount as int, fee_coefficient_of(s) as int);
                &&& 1 <= fee <= amount
                &&& effects[0] == SocialEffectView::Transfer { token, from: sender, to: receiver, amount: (amount
                    - fee) as i128 }
                &&& effects[1] == SocialEffectView::Transfer { token, from: sender, to: s.treasury->0, amount: fee as i128 }
                &&& (amount - fee) + fee == amount
            }
            &&& visibility != Visibility::Public ==> effects[0] == SocialEffectView::Transfer {
                token,
                from: sender,
                to: receiver,
                amount,
            } && effects.len() == 2
        },
        auth.contains(sender) && amount > 0 && s.naira_token is Some && token != s.naira_token->0 ==> spec_social_pay(
            s,
            auth,
            sender,
            receiver,
            token,
            amount,
            memo,
            visibility,
        ) == SocialOutcome::Err(social_fault(SocialPaymentError::WrongToken)),
{
    if amount > 0 {
        lemma_public_fee_bounds(amount as int, fee_coefficient_of(s) as int);
    }
}

/// One invocation of a state-changing entry point of the contract.
pub enum SocialCall {
    Initialize { admin: Address, treasury: Address },
    SetTreasury { treasury: Address },
    SetNairaToken { token: Address },
    SetFeeCoefficient { coefficient: u32 },
}

pub open spec fn spec_social_step(s: SocialBook, auth: Seq<Address>, call: SocialCall) -> Result<
    SocialBook,
    Fault<SocialPaymentError>,
> {
    match call {
        SocialCall::Initialize { admin, treasury } => spec_social_initialize(s, admin, treasury),
        SocialCall::SetTreasury { treasury } => spec_set_treasury(s, auth, treasury),
        SocialCall::SetNairaToken { token } => spec_set_naira_token(s, auth, token),
        SocialCall::SetFeeCoefficient { coefficient } => spec_set_fee_coefficient(s, auth, coefficient),
    }
}

/// The fee coefficient in force never exceeds 10000 basis points, whatever
/// the admin does; only the admin changes the configuration, and only once
/// initialized.
pub proof fn law_fee_coefficient_bounded(s: SocialBook, auth: Seq<Address>, call: SocialCall)
    requires
        social_wf(s),
    ensures
        spec_social_step(s, auth, call) matches Ok(s2) ==> social_wf(s2) && (!(call is Initialize) ==> s.admin
            is Some && auth.contains(s.admin->0) && s2.admin == s.admin),
{
}

/// The social payment contract's storage.
pub struct SocialPaymentContract {
    admin: Option<Address>,
    treasury: Option<Address>,
    fee_coefficient: Option<u32>,
    naira_token: Option<Address>,
}

impl View for SocialPaymentContract {
    type V = SocialBook;

    closed spec fn view(&self) -> SocialBook {
        SocialBook {
            admin: self.admin,
            treasury: self.treasury,
            fee_coefficient: self.fee_coefficient,
            naira_token: self.naira_token,
        }
    }
}

impl SocialPaymentContract {
    /// A freshly deployed, uninitialized contract.
    pub fn new() -> (c: Self)
        ensures
            c@.admin is None,
            c@.treasury is None,
            c@.fee_coefficient is None,
            c@.naira_token is None,
    {
        SocialPaymentContract { admin: None, treasury: None, fee_coefficient: None, naira_token: None }
    }

    fn check_admin(&self, auth: &Vec<Address>) -> (r: Result<(), Fault<SocialPaymentError>>)
        ensures
            r is Ok <==> social_admin_fault(self@, auth@) is None,
            r matches Err(f) ==> social_admin_fault(self@, auth@) == Some(f),
    {
        match self.admin {
            None => Err(Fault::Contract(SocialPaymentError::NotInitialized)),
            Some(a) => if authorized(auth, a) {
                Ok(())
            } else {
                Err(Fault::MissingAuth(a))
            },
        }
    }

    /// Sets the admin and the treasury; only once.
    pub fn initialize(&mut self, admin: Address, treasury: Address) -> (r: Result<(), Fault<SocialPaymentError>>)
        ensures
            settled(r, final(self)@) == spec_social_initialize(old(self)@, admin, treasury),
            r is Err ==> final(self)@ == old(self)@,
    {
        if self.admin.is_some() {
            return Err(Fault::Contract(SocialPaymentError::AlreadyInitialized));
        }
        self.admin = Some(admin);
        self.treasury = Some(treasury);
        Ok(())
    }

    /// The admin moves the fee destination.
    pub fn set_treasury(&mut self, auth: &Vec<Address>, new_treasury: Address) -> (r: Result<
        (),
        Fault<SocialPaymentError>,
    >)
        ensures
            settled(r, final(self)@) == spec_set_treasury(old(self)@, auth@, new_treasury),
            r is Err ==> final(self)@ == old(self)@,
    {
        if let Err(f) = self.check_admin(auth) {
            return Err(f);
        }
        self.treasury = Some(new_treasury);
        Ok(())
    }

    /// The admin sets the token payments are made in.
    pub fn set_naira_token(&mut self, auth: &Vec<Address>, naira_token: Address) -> (r: Result<
        (),
        Fault<SocialPaymentError>,
    >)
        ensures
            settled(r, final(self)@) == spec_set_naira_token(old(self)@, auth@, naira_token),
            r is Err ==> final(self)@ == old(self)@,
    {
        if let Err(f) = self.check_admin(auth) {
            return Err(f);
        }
        self.naira_token = Some(naira_token);
        Ok(())
    }

    /// The token payments are made in.
    pub fn naira_token(&self) -> (r: Result<Address, SocialPaymentError>)
        ensures
            match r {
                Ok(t) => self@.naira_token == Some(t),
                Err(e) => self@.naira_token is None && e == SocialPaymentError::NairaTokenNotInitialized,
            },
    {
        match self.naira_token {
            Some(t) => Ok(t),
            None => Err(SocialPaymentError::NairaTokenNotInitialized),
        }
    }

    /// The admin sets the public-payment fee, in basis points.
    pub fn set_fee_coefficient(&mut self, auth: &Vec<Address>, fee_coef: u32) -> (r: Result<
        (),
        Fault<SocialPaymentError>,
    >)
        ensures
            settled(r, final(self)@) == spec_set_fee_coefficient(old(self)@, auth@, fee_coef),
            r is Err ==> final(self)@ == old(self)@,
    {
        if let Err(f) = self.check_admin(auth) {
            return Err(f);
        }
        if fee_coef > MAX_FEE_COEFFICIENT {
            return Err(Fault::Contract(SocialPaymentError::FeeCoefficientTooHigh));
        }
        self.fee_coefficient = Some(fee_coef);
        Ok(())
    }

    /// The public-payment fee in force, in basis points.
    pub fn fee_coefficient(&self) -> (r: u32)
        ensures
            r == fee_coefficient_of(self@),
    {
        match self.fee_coefficient {
            Some(c) => c,
            None => DEFAULT_FEE_COEFFICIENT,
        }
    }

    /// Pays `amount` of `token` from `sender` to `receiver`, announcing the
    /// payment with its memo and visibility.
    pub fn pay(
        &self,
        auth: &Vec<Address>,
        sender: Address,
        receiver: Address,
        token: Address,
        amount: i128,
        memo: String,
        visibility: Visibility,
    ) -> (r: Result<Vec<SocialEffect>, Fault<SocialPaymentError>>)
        requires
            visibility == Visibility::Public && amount > 0 ==> amount * fee_coefficient_of(self@) <= i128::MAX,
        ensures
            observed_views(r, self@) == spec_social_pay(self@, auth@, sender, receiver, token, amount, memo@, visibility),
    {
        if !authorized(auth, sender) {
            return Err(Fault::MissingAuth(sender));
        }
        if amount <= 0 {
            return Err(Fault::Contract(SocialPaymentError::AmountNotPositive));
        }
        let naira = match self.naira_token {
            Some(t) => t,
            None => {
                return Err(Fault::Contract(SocialPaymentError::NairaTokenNotInitialized));
            },
        };
        if token != naira {
            return Err(Fault::Contract(SocialPaymentError::WrongToken));
        }
        let ghost memo_view = memo@;
        let event = SocialEffect::Paid(SocialPaymentEvent { sender, receiver, amount, memo, visibility });
        let mut effects: Vec<SocialEffect> = Vec::new();
        if visibility == Visibility::Public {
            let treasury = match self.treasury {
                Some(t) => t,
                None => {
                    return Err(Fault::Contract(SocialPaymentError::TreasuryNotInitialized));
                },
            };
            let coef = self.fee_coefficient();
            proof {
                assert(amount * coef >= 0) by (nonlinear_arith)
                    requires
                        amount > 0,
                ;
            }
            let raw: i128 = amount * (coef as i128) / 10000;
            let fee: i128 = if raw == 0 {
                1
            } else {
                raw
            };
            proof {
                assert(fee == public_fee(amount as int, coef as int));
            }
            effects.push(SocialEffect::Transfer { token, from: sender, to: receiver, amount: amount - fee });
            if fee > 0 {
                effects.push(SocialEffect::Transfer { token, from: sender, to: treasury, amount: fee });
            }
            effects.push(event);
            proof {
                assert(effects@.map_values(|e: SocialEffect| e@) =~= seq![
                    SocialEffectView::Transfer { token, from: sender, to: receiver, amount: (amount - fee) as i128 },
                    SocialEffectView::Transfer { token, from: sender, to: treasury, amount: fee },
                    SocialEffectView::Paid(
                        SocialPaymentEventView { sender, receiver, amount, memo: memo_view, visibility },
                    ),
                ]);
            }
        } else {
            effects.push(SocialEffect::Transfer { token, from: sender, to: receiver, amount });
            effects.push(event);
            proof {
                assert(effects@.map_values(|e: SocialEffect| e@) =~= seq![
                    SocialEffectView::Transfer { token, from: sender, to: receiver, amount },
                    SocialEffectView::Paid(
                        SocialPaymentEventView { sender, receiver, amount, memo: memo_view, visibility },
                    ),
                ]);
            }
        }
        Ok(effects)
    }

    /// `sender` likes the payment `tx_id`.
    pub fn like_payment(&self, auth: &Vec<Address>, sender: Address, tx_id: String) -> (r: Result<
        Vec<SocialEffect>,
        Fault<SocialPaymentError>,
    >)
        ensures
            observed_views(r, self@) == spec_like_payment(self@, auth@, sender, tx_id@),
    {
        if !authorized(auth, sender) {
            return Err(Fault::MissingAuth(sender));
        }
        let ghost id = tx_id@;
        let mut effects: Vec<SocialEffect> = Vec::new();
        effects.push(SocialEffect::Liked { tx_id, sender });
        proof {
            assert(effects@.map_values(|e: SocialEffect| e@) =~= seq![SocialEffectView::Liked { tx_id: id, sender }]);
        }
        Ok(effects)
    }

    /// `sender` comments on the payment `tx_id`; the comment must hold
    /// something besides white space and fit in 120 bytes.
    pub fn comment_payment(&self, auth: &Vec<Address>, sender: Address, tx_id: String, comment: String) -> (r:
        Result<Vec<SocialEffect>, Fault<SocialPaymentError>>)
        ensures
            observed_views(r, self@) == spec_comment_payment(self@, auth@, sender, tx_id@, comment@),
    {
        if !authorized(auth, sender) {
            return Err(Fault::MissingAuth(sender));
        }
        if blank(comment.as_str()) {
            return Err(Fault::Contract(SocialPaymentError::EmptyComment));
        }
        if comment.as_str().len() > MAX_COMMENT_BYTES {
            return Err(Fault::Contract(SocialPaymentError::CommentTooLong));
        }
        let ghost id = tx_id@;
        let ghost text = comment@;
        let mut effects: Vec<SocialEffect> = Vec::new();
        effects.push(SocialEffect::Commented { tx_id, comment });
        proof {
            assert(effects@.map_values(|e: SocialEffect| e@) =~= seq![
                SocialEffectView::Commented { tx_id: id, comment: text },
            ]);
        }
        Ok(effects)
    }
}

} // verus!
