use cw_token::error::TokenError;
use cw_token::msg::{Attribute, Coin, CosmosOp, Event, Reply, SubMsg, SubMsgResponse, SubMsgResult};
use cw_token::token::Instantiate;
use cw_token::osmosis::{
    handle_reply, parse_osmosis_denom_from_instantiate_event, OsmosisDenom, OsmosisDenomInfo,
    OsmosisDenomInit, PendingCreation, ReplyOutcome, REPLY_SAVE_OSMOSIS_DENOM,
};

fn attr(key: &str, value: &str) -> Attribute {
    Attribute { key: key.to_string(), value: value.to_string() }
}

fn event(ty: &str, attributes: Vec<Attribute>) -> Event {
    Event { ty: ty.to_string(), attributes }
}

fn pending() -> Option<PendingCreation> {
    Some(PendingCreation {
        sender: "osmo1contract".to_string(),
        recipient: "osmo1user".to_string(),
        amount: 500,
    })
}

fn success(id: u64, events: Vec<Event>) -> Reply {
    Reply { id, result: SubMsgResult::Success(SubMsgResponse { events }) }
}

#[test]
fn instantiate_registers_the_continuation() {
    let denom = OsmosisDenom("factory/osmo1contract/ugamma".to_string(), None);
    let mut record = None;
    let sub = denom.instantiate(
        OsmosisDenomInit { recipient: "osmo1user".to_string(), amount: 500 },
        &mut record,
    );
    assert_eq!(
        sub,
        SubMsg {
            id: REPLY_SAVE_OSMOSIS_DENOM,
            msg: CosmosOp::CreateDenom {
                sender: "osmo1contract".to_string(),
                subdenom: "ugamma".to_string(),
            },
        }
    );
    assert_eq!(record, pending());
}

#[test]
fn parse_finds_first_create_denom_event() {
    let events = vec![
        event("message", vec![attr("new_token_denom", "factory/a/wrong")]),
        event("create_denom", vec![attr("creator", "osmo1"), attr("new_token_denom", "factory/osmo1/x")]),
        event("create_denom", vec![attr("new_token_denom", "factory/osmo1/y")]),
    ];
    assert_eq!(
        parse_osmosis_denom_from_instantiate_event(&events),
        Ok("factory/osmo1/x".to_string())
    );
}

#[test]
fn parse_without_event_or_attribute_fails() {
    let no_event = vec![event("message", vec![attr("new_token_denom", "factory/a/b")])];
    assert_eq!(
        parse_osmosis_denom_from_instantiate_event(&no_event),
        Err(TokenError::ProtocolViolation)
    );
    let no_attr = vec![event("create_denom", vec![attr("creator", "osmo1")])];
    assert_eq!(
        parse_osmosis_denom_from_instantiate_event(&no_attr),
        Err(TokenError::ProtocolViolation)
    );
}

#[test]
fn acknowledgment_finalizes_creation() {
    let mut record = pending();
    let reply = success(
        REPLY_SAVE_OSMOSIS_DENOM,
        vec![event("create_denom", vec![attr("new_token_denom", "factory/osmo1contract/x")])],
    );
    let outcome = handle_reply(&reply, &mut record);
    assert_eq!(
        outcome,
        Ok(ReplyOutcome::Finalized {
            info: OsmosisDenomInfo {
                denom: "factory/osmo1contract/x".to_string(),
                sender: "osmo1contract".to_string(),
            },
            messages: vec![
                CosmosOp::Mint {
                    sender: "osmo1contract".to_string(),
                    denom: "factory/osmo1contract/x".to_string(),
                    amount: 500,
                },
                CosmosOp::BankSend {
                    to_address: "osmo1user".to_string(),
                    amount: vec![Coin { denom: "factory/osmo1contract/x".to_string(), amount: 500 }],
                },
            ],
        })
    );
    assert_eq!(record, None);
}

#[test]
fn acknowledgment_without_event_keeps_record() {
    let mut record = pending();
    let reply = success(REPLY_SAVE_OSMOSIS_DENOM, vec![event("message", vec![])]);
    assert_eq!(handle_reply(&reply, &mut record), Err(TokenError::ProtocolViolation));
    assert_eq!(record, pending());
}

#[test]
fn acknowledgment_with_malformed_denom_keeps_record() {
    let mut record = pending();
    let reply = success(
        REPLY_SAVE_OSMOSIS_DENOM,
        vec![event("create_denom", vec![attr("new_token_denom", "uosmo")])],
    );
    assert_eq!(handle_reply(&reply, &mut record), Err(TokenError::ProtocolViolation));
    assert_eq!(record, pending());
}

#[test]
fn failed_acknowledgment_is_surfaced_unchanged() {
    let mut record = pending();
    let reply = Reply {
        id: REPLY_SAVE_OSMOSIS_DENOM,
        result: SubMsgResult::Failure("out of gas".to_string()),
    };
    assert_eq!(
        handle_reply(&reply, &mut record),
        Err(TokenError::ReplyFailed("out of gas".to_string()))
    );
    assert_eq!(record, pending());
}

#[test]
fn acknowledgment_without_record_is_not_found() {
    let mut record = None;
    let reply = success(
        REPLY_SAVE_OSMOSIS_DENOM,
        vec![event("create_denom", vec![attr("new_token_denom", "factory/a/b")])],
    );
    assert_eq!(handle_reply(&reply, &mut record), Err(TokenError::NotFound));
    assert_eq!(record, None);
}

#[test]
fn other_reply_ids_are_ignored() {
    let mut record = pending();
    let reply = success(
        REPLY_SAVE_OSMOSIS_DENOM + 1,
        vec![event("create_denom", vec![attr("new_token_denom", "factory/a/b")])],
    );
    assert_eq!(handle_reply(&reply, &mut record), Ok(ReplyOutcome::Ignored));
    assert_eq!(record, pending());
    let failed = Reply { id: 1, result: SubMsgResult::Failure("boom".to_string()) };
    assert_eq!(handle_reply(&failed, &mut record), Ok(ReplyOutcome::Ignored));
    assert_eq!(record, pending());
}
