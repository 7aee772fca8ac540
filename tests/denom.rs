use cw_token::denom::{is_valid_factory_denom, split_factory_denom};
use cw_token::error::TokenError;
use cw_token::osmosis::{AssetInfo, OsmosisDenom};

#[test]
fn three_segments_with_factory_prefix_are_valid() {
    assert!(is_valid_factory_denom("factory/cosmos1abc/mytoken"));
    assert_eq!(
        split_factory_denom("factory/cosmos1abc/mytoken"),
        Some(("cosmos1abc".to_string(), "mytoken".to_string()))
    );
}

#[test]
fn two_segments_are_invalid() {
    assert!(!is_valid_factory_denom("factory/mytoken"));
    assert_eq!(split_factory_denom("factory/mytoken"), None);
}

#[test]
fn wrong_prefix_is_invalid() {
    assert!(!is_valid_factory_denom("other/cosmos1abc/mytoken"));
    assert!(!is_valid_factory_denom("factor/cosmos1abc/mytoken"));
    assert!(!is_valid_factory_denom("factoryx/cosmos1abc/mytoken"));
}

#[test]
fn four_segments_are_invalid() {
    assert!(!is_valid_factory_denom("factory/a/b/c"));
}

#[test]
fn empty_segments_count() {
    assert!(is_valid_factory_denom("factory//"));
    assert_eq!(split_factory_denom("factory//"), Some((String::new(), String::new())));
    assert!(!is_valid_factory_denom(""));
    assert!(!is_valid_factory_denom("uosmo"));
}

#[test]
fn try_from_native_factory_denom() {
    let info = AssetInfo::Native("factory/osmo1xyz/ualpha".to_string());
    assert_eq!(
        OsmosisDenom::try_from(info),
        Ok(OsmosisDenom("factory/osmo1xyz/ualpha".to_string(), None))
    );
}

#[test]
fn try_from_rejects_other_shapes() {
    assert_eq!(
        OsmosisDenom::try_from(AssetInfo::Native("uosmo".to_string())),
        Err(TokenError::InvalidIdentity)
    );
    assert_eq!(
        OsmosisDenom::try_from(AssetInfo::Cw20("osmo1contract".to_string())),
        Err(TokenError::InvalidIdentity)
    );
    assert_eq!(
        OsmosisDenom::try_from(AssetInfo::Cw1155("osmo1contract".to_string(), "7".to_string())),
        Err(TokenError::InvalidIdentity)
    );
}

#[test]
fn round_trip_through_asset_info() {
    let denom = OsmosisDenom("factory/osmo1xyz/ualpha".to_string(), None);
    let info: AssetInfo = denom.clone().into();
    assert_eq!(info, AssetInfo::Native("factory/osmo1xyz/ualpha".to_string()));
    assert_eq!(OsmosisDenom::try_from(info), Ok(denom));
}

#[test]
fn denom_to_string() {
    let denom = OsmosisDenom("factory/osmo1xyz/ualpha".to_string(), None);
    assert_eq!(denom.to_string(), "factory/osmo1xyz/ualpha");
}

#[test]
fn try_from_by_reference() {
    let info = AssetInfo::Native("factory/osmo1xyz/ualpha".to_string());
    assert_eq!(
        OsmosisDenom::try_from(&info),
        Ok(OsmosisDenom("factory/osmo1xyz/ualpha".to_string(), None))
    );
    let bad = AssetInfo::Native("factory/ualpha".to_string());
    assert_eq!(OsmosisDenom::try_from(&bad), Err(TokenError::InvalidIdentity));
    let cw20 = AssetInfo::Cw20("osmo1contract".to_string());
    assert_eq!(OsmosisDenom::try_from(&cw20), Err(TokenError::InvalidIdentity));
}
