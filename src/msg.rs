//! Plain-value descriptions of what the chain executes and reports back.
use vstd::prelude::*;

verus! {

/// An amount of one denom.
#[derive(Clone, Debug, PartialEq, Eq)]
pub struct Coin {
    pub denom: String,
    pub amount: u128,
}

/// An operation for the chain to execute after the current invocation returns.
#[derive(Clone, Debug, PartialEq, Eq)]
pub enum CosmosOp {
    /// Bank module: send coins from the contract to `to_address`.
    BankSend { to_address: String, amount: Vec<Coin> },
    /// Token-factory module: mint `amount` of `denom` to `sender`.
    Mint { sender: String, denom: String, amount: u128 },
    /// Token-factory module: burn `amount` of `denom` held by `sender`.
    Burn { sender: String, denom: String, amount: u128 },
    /// Token-factory module: create `factory/<sender>/<subdenom>`.
    CreateDenom { sender: String, subdenom: String },
}

/// An operation whose outcome the chain reports back under `id`.
#[derive(Clone, Debug, PartialEq, Eq)]
pub struct SubMsg {
    pub id: u64,
    pub msg: CosmosOp,
}

/// A key/value attribute of an event.
#[derive(Clone, Debug, PartialEq, Eq)]
pub struct Attribute {
    pub key: String,
    pub value: String,
}

/// An event that an executed operation emitted.
#[derive(Clone, Debug, PartialEq, Eq)]
pub struct Event {
    pub ty: String,
    pub attributes: Vec<Attribute>,
}

/// What a successful operation reported.
#[derive(Clone, Debug, PartialEq, Eq)]
pub struct SubMsgResponse {
    pub events: Vec<Event>,
}

/// The outcome of a sub-message.
#[derive(Clone, Debug, PartialEq, Eq)]
pub enum SubMsgResult {
    Success(SubMsgResponse),
    /// The chain's error message.
    Failure(String),
}

/// The chain's acknowledgment of a sub-message: its id and its outcome.
#[derive(Clone, Debug, PartialEq, Eq)]
pub struct Reply {
    pub id: u64,
    pub result: SubMsgResult,
}

/// `op` sends exactly `amount` of `denom` to `to`.
pub open spec fn is_bank_send(op: CosmosOp, to: Seq<char>, denom: Seq<char>, amount: u128) -> bool {
    match op {
        CosmosOp::BankSend { to_address, amount: coins } => to_address@ == to && coins@.len() == 1
            && coins@[0].denom@ == denom && coins@[0].amount == amount,
        _ => false,
    }
}

/// `op` is a token-factory mint of `amount` of `denom` by `sender`.
pub open spec fn is_module_mint(
    op: CosmosOp,
    sender: Seq<char>,
    denom: Seq<char>,
    amount: u128,
) -> bool {
    match op {
        CosmosOp::Mint { sender: s, denom: d, amount: a } => s@ == sender && d@ == denom && a
            == amount,
        _ => false,
    }
}

/// `op` is a token-factory burn of `amount` of `denom` by `sender`.
pub open spec fn is_module_burn(
    op: CosmosOp,
    sender: Seq<char>,
    denom: Seq<char>,
    amount: u128,
) -> bool {
    match op {
        CosmosOp::Burn { sender: s, denom: d, amount: a } => s@ == sender && d@ == denom && a
            == amount,
        _ => false,
    }
}

/// The value of the first attribute keyed `key`.
pub open spec fn attribute_value(attrs: Seq<Attribute>, key: Seq<char>) -> Option<Seq<char>>
    decreases attrs.len(),
{
    if attrs.len() == 0 {
        None
    } else if attrs[0].key@ == key {
        Some(attrs[0].value@)
    } else {
        attribute_value(attrs.drop_first(), key)
    }
}

/// The attributes of the first event of type `ty`.
pub open spec fn event_attributes(events: Seq<Event>, ty: Seq<char>) -> Option<Seq<Attribute>>
    decreases events.len(),
{
    if events.len() == 0 {
        None
    } else if events[0].ty@ == ty {
        Some(events[0].attributes@)
    } else {
        event_attributes(events.drop_first(), ty)
    }
}

/// Returns the value of the first attribute keyed `key`.
pub fn find_attribute(attrs: &Vec<Attribute>, key: &String) -> (r: Option<String>)
    ensures
        r is None <==> attribute_value(attrs@, key@) is None,
        r matches Some(v) ==> attribute_value(attrs@, key@) == Some(v@),
{
    let mut i: usize = 0;
    assert(attrs@.skip(0) =~= attrs@);
    while i < attrs.len()
        invariant
            i <= attrs@.len(),
            attribute_value(attrs@, key@) == attribute_value(attrs@.skip(i as int), key@),
        decreases attrs@.len() - i,
    {
        assert(attrs@.skip(i as int).drop_first() =~= attrs@.skip(i + 1));
        if attrs[i].key == *key {
            return Some(attrs[i].value.clone());
        }
        i = i + 1;
    }
    None
}

/// Returns the index of the first event of type `ty`.
pub fn find_event(events: &Vec<Event>, ty: &String) -> (r: Option<usize>)
    ensures
        r is None <==> event_attributes(events@, ty@) is None,
        r matches Some(i) ==> i < events@.len() && events@[i as int].ty@ == ty@ && (forall|j: int|
            0 <= j < i ==> events@[j].ty@ != ty@) && event_attributes(events@, ty@) == Some(
            events@[i as int].attributes@,
        ),
{
    let mut i: usize = 0;
    assert(events@.skip(0) =~= events@);
    while i < events.len()
        invariant
            i <= events@.len(),
            forall|j: int| 0 <= j < i ==> events@[j].ty@ != ty@,
            event_attributes(events@, ty@) == event_attributes(events@.skip(i as int), ty@),
        decreases events@.len() - i,
    {
        assert(events@.skip(i as int).drop_first() =~= events@.skip(i + 1));
        if events[i].ty == *ty {
            return Some(i);
        }
        i = i + 1;
    }
    None
}

} // verus!
