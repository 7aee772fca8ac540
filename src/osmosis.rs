//! Token-factory denoms of Osmosis: a module-issued synthetic asset that the
//! contract can create, mint, burn and transfer.
use vstd::prelude::*;

use crate::denom::{is_factory_denom, segments, split_factory_denom};
use crate::error::TokenError;
use crate::token::{AssertReceived, Burn, Instantiate, Mint, Token};
use crate::msg::{
    attribute_value, event_attributes, find_attribute, find_event, is_bank_send, is_module_burn,
    is_module_mint, Coin, CosmosOp, Event, Reply, SubMsg, SubMsgResult,
};

verus! {

/// The reply id under which the creation of a denom is acknowledged. It is
/// reserved for this module, apart from the ids of the calling contract.
pub const REPLY_SAVE_OSMOSIS_DENOM: u64 = 14508;

/// The identity of an asset, before it is bound to a token variant.
#[derive(Clone, Debug, PartialEq, Eq)]
pub enum AssetInfo {
    /// A denom of the bank module.
    Native(String),
    /// A CW20 token contract.
    Cw20(String),
    /// A token of a CW1155 contract: the contract and the token id.
    Cw1155(String, String),
}

/// A checked token-factory denom, `factory/<creator>/<subdenom>`, with the
/// admin recorded for it: the one address allowed to mint and burn it. The
/// admin is recorded once, after the denom was created.
#[derive(Clone, Debug, PartialEq, Eq)]
pub struct OsmosisDenom(pub String, pub Option<String>);

impl View for OsmosisDenom {
    type V = Seq<char>;

    open spec fn view(&self) -> Seq<char> {
        self.0@
    }
}

/// The asset identity of a denom: always a bank denom.
pub open spec fn asset_info_of(d: OsmosisDenom) -> AssetInfo {
    AssetInfo::Native(d.0)
}

/// The outcome of checking an asset identity as a token-factory denom.
pub open spec fn checked_denom(a: AssetInfo) -> Result<OsmosisDenom, TokenError> {
    match a {
        AssetInfo::Native(d) => if is_factory_denom(d@) {
            Ok(OsmosisDenom(d, None))
        } else {
            Err(TokenError::InvalidIdentity)
        },
        _ => Err(TokenError::InvalidIdentity),
    }
}

impl From<OsmosisDenom> for AssetInfo {
    fn from(denom: OsmosisDenom) -> (r: AssetInfo)
        ensures
            r == asset_info_of(denom),
    {
        AssetInfo::Native(denom.0)
    }
}

impl vstd::std_specs::convert::FromSpecImpl<OsmosisDenom> for AssetInfo {
    open spec fn obeys_from_spec() -> bool {
        true
    }

    open spec fn from_spec(v: OsmosisDenom) -> AssetInfo {
        asset_info_of(v)
    }
}

impl TryFrom<AssetInfo> for OsmosisDenom {
    type Error = TokenError;

    fn try_from(asset_info: AssetInfo) -> (r: Result<OsmosisDenom, TokenError>)
        ensures
            r == checked_denom(asset_info),
    {
        match asset_info {
            AssetInfo::Native(denom) => {
                if is_valid(&denom) {
                    Ok(OsmosisDenom(denom, None))
                } else {
                    Err(TokenError::InvalidIdentity)
                }
            },
            _ => Err(TokenError::InvalidIdentity),
        }
    }
}

impl vstd::std_specs::convert::TryFromSpecImpl<AssetInfo> for OsmosisDenom {
    open spec fn obeys_try_from_spec() -> bool {
        true
    }

    open spec fn try_from_spec(v: AssetInfo) -> Result<OsmosisDenom, TokenError> {
        checked_denom(v)
    }
}

impl<'a> TryFrom<&'a AssetInfo> for OsmosisDenom {
    type Error = TokenError;

    fn try_from(asset_info: &'a AssetInfo) -> (r: Result<OsmosisDenom, TokenError>)
        ensures
            r == checked_denom(*asset_info),
    {
        match asset_info {
            AssetInfo::Native(denom) => {
                if is_valid(denom) {
                    Ok(OsmosisDenom(denom.clone(), None))
                } else {
                    Err(TokenError::InvalidIdentity)
                }
            },
            _ => Err(TokenError::InvalidIdentity),
        }
    }
}

impl<'a> vstd::std_specs::convert::TryFromSpecImpl<&'a AssetInfo> for OsmosisDenom {
    open spec fn obeys_try_from_spec() -> bool {
        true
    }

    open spec fn try_from_spec(v: &'a AssetInfo) -> Result<OsmosisDenom, TokenError> {
        checked_denom(*v)
    }
}

fn is_valid(denom: &String) -> (r: bool)
    ensures
        r == is_factory_denom(denom@),
{
    crate::denom::is_valid_factory_denom(denom.as_str())
}

/// A checked denom, turned into an asset identity and checked again, comes back
/// with the same identity. The admin is no part of the identity: the checked
/// denom has none recorded yet.
pub proof fn lemma_round_trip(d: OsmosisDenom)
    requires
        d.wf(),
    ensures
        checked_denom(asset_info_of(d)) == Ok::<OsmosisDenom, TokenError>(OsmosisDenom(d.0, None)),
        checked_denom(asset_info_of(d)) matches Ok(c) && c@ == d@,
{
}

impl OsmosisDenom {
    /// The denom has the token-factory shape.
    pub open spec fn wf(&self) -> bool {
        is_factory_denom(self@)
    }

    /// `sender` is the recorded admin.
    pub open spec fn is_admin(&self, sender: Seq<char>) -> bool {
        self.1 matches Some(a) && a@ == sender
    }

    /// The denom as a string.
    pub fn to_string(&self) -> (r: String)
        ensures
            r@ == self@,
    {
        self.0.clone()
    }

    /// Records `addr` as the admin. The admin is recorded once: where one is
    /// already recorded, this fails with `Unauthorized` and changes nothing.
    pub fn set_admin_addr(&mut self, addr: String) -> (r: Result<(), TokenError>)
        ensures
            r is Ok <==> old(self).1 is None,
            r is Ok ==> (final(self).1 matches Some(a) && a@ == addr@),
            r is Ok ==> final(self).0 == old(self).0,
            r is Err ==> r == Err::<(), TokenError>(TokenError::Unauthorized) && *final(self)
                == *old(self),
    {
        if self.1.is_some() {
            return Err(TokenError::Unauthorized);
        }
        self.1 = Some(addr);
        Ok(())
    }

    /// The denom of a saved admin record, with its admin, or `InvalidIdentity`
    /// where the record's denom is not a token-factory denom.
    pub fn from_info(info: OsmosisDenomInfo) -> (r: Result<OsmosisDenom, TokenError>)
        ensures
            r is Ok <==> is_factory_denom(info.denom@),
            r is Err ==> r == Err::<OsmosisDenom, TokenError>(TokenError::InvalidIdentity),
            r matches Ok(d) ==> d.0 == info.denom && d.1 == Some(info.sender),
    {
        if is_valid(&info.denom) {
            Ok(OsmosisDenom(info.denom, Some(info.sender)))
        } else {
            Err(TokenError::InvalidIdentity)
        }
    }

    /// Fails with `Unauthorized` unless `sender` is the recorded admin.
    fn check_admin(&self, sender: &String) -> (r: Result<(), TokenError>)
        ensures
            r is Ok <==> self.is_admin(sender@),
            r is Err ==> r == Err::<(), TokenError>(TokenError::Unauthorized),
    {
        match &self.1 {
            Some(a) => if *a == *sender {
                Ok(())
            } else {
                Err(TokenError::Unauthorized)
            },
            None => Err(TokenError::Unauthorized),
        }
    }
}

impl Token for OsmosisDenom {
    open spec fn is_checked(&self) -> bool {
        self.wf()
    }

    open spec fn is_transfer(&self, op: CosmosOp, to: Seq<char>, amount: u128) -> bool {
        is_bank_send(op, to, self@, amount)
    }

    /// A zero amount is sent as it is: the bank module decides on it.
    fn transfer(&self, to: String, amount: u128) -> (r: Vec<CosmosOp>) {
        vec![bank_send(to, &self.0, amount)]
    }

    /// A token-factory denom is held by the bank module.
    open spec fn native_spec() -> bool {
        true
    }

    fn is_native() -> (r: bool) {
        true
    }
}

impl Mint for OsmosisDenom {
    open spec fn is_mint(&self, op: CosmosOp, sender: Seq<char>, amount: u128) -> bool {
        is_module_mint(op, sender, self@, amount)
    }

    /// Only the recorded admin may mint.
    open spec fn may_mint(&self, sender: Seq<char>) -> bool {
        self.is_admin(sender)
    }

    /// A zero amount gives both operations with a zero amount.
    fn mint(&self, sender: String, recipient: String, amount: u128) -> (r: Result<
        Vec<CosmosOp>,
        TokenError,
    >) {
        if let Err(e) = self.check_admin(&sender) {
            return Err(e);
        }
        let mint = CosmosOp::Mint { sender, denom: self.0.clone(), amount };
        Ok(vec![mint, bank_send(recipient, &self.0, amount)])
    }
}

impl Burn for OsmosisDenom {
    open spec fn is_burn(&self, op: CosmosOp, sender: Seq<char>, amount: u128) -> bool {
        is_module_burn(op, sender, self@, amount)
    }

    /// Only the recorded admin may burn.
    open spec fn may_burn(&self, sender: Seq<char>) -> bool {
        self.is_admin(sender)
    }

    fn burn(&self, sender: String, amount: u128) -> (r: Result<Vec<CosmosOp>, TokenError>) {
        if let Err(e) = self.check_admin(&sender) {
            return Err(e);
        }
        Ok(vec![CosmosOp::Burn { sender, denom: self.0.clone(), amount }])
    }
}

fn bank_send(to: String, denom: &String, amount: u128) -> (r: CosmosOp)
    ensures
        is_bank_send(r, to@, denom@, amount),
{
    CosmosOp::BankSend { to_address: to, amount: vec![Coin { denom: denom.clone(), amount }] }
}

/// The sum of the amounts of `denom` in `funds`.
pub open spec fn received(funds: Seq<Coin>, denom: Seq<char>) -> int
    decreases funds.len(),
{
    if funds.len() == 0 {
        0
    } else {
        received(funds.drop_last(), denom) + if funds.last().denom@ == denom {
            funds.last().amount as int
        } else {
            0
        }
    }
}

proof fn lemma_received_prefix(funds: Seq<Coin>, denom: Seq<char>, k: int)
    requires
        0 <= k <= funds.len(),
    ensures
        received(funds.take(k), denom) <= received(funds, denom),
    decreases funds.len(),
{
    if k == funds.len() {
        assert(funds.take(k) =~= funds);
    } else {
        lemma_received_prefix(funds.drop_last(), denom, k);
        assert(funds.drop_last().take(k) =~= funds.take(k));
    }
}

impl AssertReceived for OsmosisDenom {
    open spec fn received_amount(&self, funds: Seq<Coin>) -> int {
        received(funds, self@)
    }

    /// The funds attached to the invocation are checked. More than `amount` is
    /// accepted; the excess stays with the contract.
    fn assert_received(&self, funds: &Vec<Coin>, amount: u128) -> (r: Result<(), TokenError>) {
        if amount == 0 {
            proof {
                lemma_received_prefix(funds@, self@, 0);
            }
            return Ok(());
        }
        let mut acc: u128 = 0;
        let mut i: usize = 0;
        while i < funds.len()
            invariant
                i <= funds@.len(),
                acc as int == received(funds@.take(i as int), self@),
                acc < amount,
            decreases funds@.len() - i,
        {
            assert(funds@.take(i + 1).drop_last() =~= funds@.take(i as int));
            if funds[i].denom == self.0 {
                if funds[i].amount >= amount - acc {
                    proof {
                        lemma_received_prefix(funds@, self@, i + 1);
                    }
                    return Ok(());
                }
                acc = acc + funds[i].amount;
            }
            i = i + 1;
        }
        assert(funds@.take(i as int) =~= funds@);
        Err(TokenError::InsufficientFunds)
    }
}

/// The admin record of a created denom, saved once its creation is acknowledged.
#[derive(Clone, Debug, PartialEq, Eq)]
pub struct OsmosisDenomInfo {
    pub denom: String,
    /// The address allowed to mint and burn the denom.
    pub sender: String,
}

/// What creating a denom mints once the chain has created it.
#[derive(Clone, Debug, PartialEq, Eq)]
pub struct OsmosisDenomInit {
    pub recipient: String,
    pub amount: u128,
}

/// A creation that waits for its acknowledgment: who mints, and what to whom.
#[derive(Clone, Debug, PartialEq, Eq)]
pub struct PendingCreation {
    pub sender: String,
    pub recipient: String,
    pub amount: u128,
}

/// The type of the event that announces a created denom.
pub open spec fn create_denom_event() -> Seq<char> {
    "create_denom"@
}

/// The attribute of that event that holds the new denom.
pub open spec fn new_denom_attribute() -> Seq<char> {
    "new_token_denom"@
}

/// The new denom that the events of a creation announce, if they do.
pub open spec fn created_denom(events: Seq<Event>) -> Option<Seq<char>> {
    match event_attributes(events, create_denom_event()) {
        Some(attrs) => attribute_value(attrs, new_denom_attribute()),
        None => None,
    }
}

/// Reads the new denom from the `new_token_denom` attribute of the first
/// `create_denom` event; without either, the chain broke its protocol.
pub fn parse_osmosis_denom_from_instantiate_event(events: &Vec<Event>) -> (r: Result<
    String,
    TokenError,
>)
    ensures
        created_denom(events@) is None ==> r == Err::<String, TokenError>(
            TokenError::ProtocolViolation,
        ),
        created_denom(events@) matches Some(d) ==> r matches Ok(v) && v@ == d,
{
    let ty = String::from_str("create_denom");
    let i = match find_event(events, &ty) {
        Some(i) => i,
        None => return Err(TokenError::ProtocolViolation),
    };
    let key = String::from_str("new_token_denom");
    match find_attribute(&events[i].attributes, &key) {
        Some(v) => Ok(v),
        None => Err(TokenError::ProtocolViolation),
    }
}

impl Instantiate for OsmosisDenom {
    type InitInfo = OsmosisDenomInit;

    type Pending = PendingCreation;

    /// The sub-message creates `factory/<creator>/<subdenom>` and is
    /// acknowledged under the reserved reply id.
    open spec fn is_creation(&self, sub: SubMsg) -> bool {
        &&& sub.id == REPLY_SAVE_OSMOSIS_DENOM
        &&& sub.msg matches CosmosOp::CreateDenom { sender, subdenom } && sender@ == segments(
            self@,
        )[1] && subdenom@ == segments(self@)[2]
    }

    /// The creator mints the initial supply and sends it to the recipient.
    open spec fn is_pending_for(&self, init_info: OsmosisDenomInit, p: PendingCreation) -> bool {
        p.sender@ == segments(self@)[1] && p.recipient@ == init_info.recipient@ && p.amount
            == init_info.amount
    }

    fn instantiate(&self, init_info: OsmosisDenomInit, pending: &mut Option<PendingCreation>) -> (r:
        SubMsg) {
        let (creator, subdenom) = match split_factory_denom(self.0.as_str()) {
            Some(parts) => parts,
            None => {
                proof {
                    assert(false);
                }
                (String::new(), String::new())
            },
        };
        *pending = Some(
            PendingCreation {
                sender: creator.clone(),
                recipient: init_info.recipient,
                amount: init_info.amount,
            },
        );
        SubMsg { id: REPLY_SAVE_OSMOSIS_DENOM, msg: CosmosOp::CreateDenom { sender: creator, subdenom } }
    }
}

/// What an acknowledgment led to.
#[derive(Clone, Debug, PartialEq, Eq)]
pub enum ReplyOutcome {
    /// The reply id belongs to the calling contract: nothing was done.
    Ignored,
    /// The denom was created: the record to save and the operations that mint
    /// and forward the initial supply.
    Finalized { info: OsmosisDenomInfo, messages: Vec<CosmosOp> },
}

/// Handles an acknowledgment. One under another id is ignored. One of the
/// pending creation finalizes it: the announced denom is read from the events,
/// its initial supply minted and forwarded, and the record cleared. A failed
/// creation, a missing record or a creation without a well-formed announced
/// denom is an error, and `pending` stays as it was.
pub fn handle_reply(reply: &Reply, pending: &mut Option<PendingCreation>) -> (r: Result<
    ReplyOutcome,
    TokenError,
>)
    ensures
        reply.id != REPLY_SAVE_OSMOSIS_DENOM ==> r == Ok::<ReplyOutcome, TokenError>(
            ReplyOutcome::Ignored,
        ) && *final(pending) == *old(pending),
        reply.id == REPLY_SAVE_OSMOSIS_DENOM && *old(pending) is None ==> r == Err::<
            ReplyOutcome,
            TokenError,
        >(TokenError::NotFound) && *final(pending) == *old(pending),
        reply.id == REPLY_SAVE_OSMOSIS_DENOM && *old(pending) is Some ==> match reply.result {
            SubMsgResult::Failure(m) => r matches Err(TokenError::ReplyFailed(e)) && e@ == m@
                && *final(pending) == *old(pending),
            SubMsgResult::Success(resp) => match created_denom(resp.events@) {
                Some(d) if is_factory_denom(d) => {
                    let p = (*old(pending))->Some_0;
                    &&& *final(pending) is None
                    &&& r matches Ok(ReplyOutcome::Finalized { info, messages })
                    &&& info.denom@ == d
                    &&& info.sender@ == p.sender@
                    &&& messages@.len() == 2
                    &&& is_module_mint(messages@[0], p.sender@, d, p.amount)
                    &&& is_bank_send(messages@[1], p.recipient@, d, p.amount)
                },
                _ => r == Err::<ReplyOutcome, TokenError>(TokenError::ProtocolViolation)
                    && *final(pending) == *old(pending),
            },
        },
{
    if reply.id != REPLY_SAVE_OSMOSIS_DENOM {
        return Ok(ReplyOutcome::Ignored);
    }
    if pending.is_none() {
        return Err(TokenError::NotFound);
    }
    let resp = match &reply.result {
        SubMsgResult::Failure(m) => return Err(TokenError::ReplyFailed(m.clone())),
        SubMsgResult::Success(resp) => resp,
    };
    let d = match parse_osmosis_denom_from_instantiate_event(&resp.events) {
        Ok(d) => d,
        Err(e) => return Err(e),
    };
    if !is_valid(&d) {
        return Err(TokenError::ProtocolViolation);
    }
    let p = match pending.take() {
        Some(p) => p,
        None => return Err(TokenError::NotFound),
    };
    let denom = OsmosisDenom(d.clone(), Some(p.sender.clone()));
    let messages = match denom.mint(p.sender.clone(), p.recipient, p.amount) {
        Ok(messages) => messages,
        Err(e) => return Err(e),
    };
    Ok(ReplyOutcome::Finalized { info: OsmosisDenomInfo { denom: d, sender: p.sender }, messages })
}

} // verus!
