use std::str::FromStr;

use swapd_core::opts::{
    parse_u64, AmountOfAsset, AmountOfAssetParseError, CheckpointSelector,
    CheckpointSelectorParseError, DealSelector, DealSelectorParseError,
};

#[test]
fn deal_selector_from_str() {
    assert_eq!(DealSelector::from_str("open"), Ok(DealSelector::Open));
    assert_eq!(DealSelector::from_str("Open"), Ok(DealSelector::Open));
    assert_eq!(DealSelector::from_str("in_progress"), Ok(DealSelector::InProgress));
    assert_eq!(DealSelector::from_str("inprogress"), Ok(DealSelector::InProgress));
    assert_eq!(DealSelector::from_str("ended"), Ok(DealSelector::Ended));
    assert_eq!(DealSelector::from_str("Ended"), Ok(DealSelector::Ended));
    assert_eq!(DealSelector::from_str("all"), Ok(DealSelector::All));
    assert_eq!(DealSelector::from_str("All"), Ok(DealSelector::All));
    assert_eq!(DealSelector::from_str("InProgress"), Err(DealSelectorParseError::Invalid));
    assert_eq!(DealSelector::from_str(""), Err(DealSelectorParseError::Invalid));
    assert_eq!(DealSelector::from_str("open "), Err(DealSelectorParseError::Invalid));
    assert_eq!("ended".parse::<DealSelector>(), Ok(DealSelector::Ended));
}

#[test]
fn deal_selector_labels() {
    assert_eq!(DealSelector::Open.label(), "Open");
    assert_eq!(DealSelector::InProgress.label(), "In Progress");
    assert_eq!(DealSelector::Ended.label(), "Ended");
    assert_eq!(DealSelector::All.label(), "All");
}

#[test]
fn checkpoint_selector_from_str() {
    assert_eq!(CheckpointSelector::from_str("all"), Ok(CheckpointSelector::All));
    assert_eq!(CheckpointSelector::from_str("All"), Ok(CheckpointSelector::All));
    assert_eq!(
        CheckpointSelector::from_str("available"),
        Ok(CheckpointSelector::AvailableForRestore)
    );
    assert_eq!(
        CheckpointSelector::from_str("Available"),
        Ok(CheckpointSelector::AvailableForRestore)
    );
    assert_eq!(
        CheckpointSelector::from_str("available-for-restore"),
        Ok(CheckpointSelector::AvailableForRestore)
    );
    assert_eq!(
        CheckpointSelector::from_str("AvailableForRestore"),
        Err(CheckpointSelectorParseError::Invalid)
    );
    assert_eq!(CheckpointSelector::from_str("open"), Err(CheckpointSelectorParseError::Invalid));
    assert_eq!(CheckpointSelector::All.label(), "All");
    assert_eq!(CheckpointSelector::AvailableForRestore.label(), "AvailableForRestore");
}

fn pair(text: &str) -> Result<(String, u64), AmountOfAssetParseError> {
    AmountOfAsset::from_str(text).map(|a| (a.asset().to_string(), a.amount()))
}

#[test]
fn amount_of_asset_with_colon() {
    assert_eq!(pair("BTC:1350"), Ok(("BTC".to_string(), 1350)));
    assert_eq!(pair(":5"), Ok(("".to_string(), 5)));
    assert_eq!(pair("x y:+7"), Ok(("x y".to_string(), 7)));
    assert_eq!(pair("\u{20bf}:18446744073709551615"), Ok(("\u{20bf}".to_string(), u64::MAX)));
}

#[test]
fn amount_of_asset_with_space() {
    assert_eq!(pair("1350 BTC"), Ok(("BTC".to_string(), 1350)));
    assert_eq!(pair("0 "), Ok(("".to_string(), 0)));
    assert_eq!(pair("007 x\u{e9}"), Ok(("x\u{e9}".to_string(), 7)));
}

#[test]
fn amount_of_asset_needs_value_pair() {
    assert_eq!(pair(""), Err(AmountOfAssetParseError::NeedsValuePair));
    assert_eq!(pair("BTC"), Err(AmountOfAssetParseError::NeedsValuePair));
    assert_eq!(pair("a:1:2"), Err(AmountOfAssetParseError::NeedsValuePair));
    assert_eq!(pair("a::"), Err(AmountOfAssetParseError::NeedsValuePair));
    assert_eq!(pair("1 2 3"), Err(AmountOfAssetParseError::NeedsValuePair));
    assert_eq!(pair("x  "), Err(AmountOfAssetParseError::NeedsValuePair));
}

#[test]
fn amount_of_asset_invalid_amount() {
    assert_eq!(pair("BTC:"), Err(AmountOfAssetParseError::InvalidAmount));
    assert_eq!(pair("BTC:-1"), Err(AmountOfAssetParseError::InvalidAmount));
    assert_eq!(pair("BTC:+"), Err(AmountOfAssetParseError::InvalidAmount));
    assert_eq!(pair("BTC:1.5"), Err(AmountOfAssetParseError::InvalidAmount));
    assert_eq!(pair("BTC: 5"), Err(AmountOfAssetParseError::InvalidAmount));
    assert_eq!(pair("BTC:18446744073709551616"), Err(AmountOfAssetParseError::InvalidAmount));
    assert_eq!(pair("BTC 5"), Err(AmountOfAssetParseError::InvalidAmount));
    assert_eq!(pair(" BTC"), Err(AmountOfAssetParseError::InvalidAmount));
}

#[test]
fn parse_u64_agrees_with_std() {
    let texts = [
        "", "+", "-", "0", "+0", "00", "1", "+1", "-1", "++1", "1+", "12a", "a12", " 1", "1 ",
        "18446744073709551615", "18446744073709551616", "+18446744073709551615",
        "99999999999999999999", "184467440737095516150", "000000000000000000000000001",
        "\u{661}", "1_000",
    ];
    for text in texts {
        assert_eq!(parse_u64(text), u64::from_str(text).ok(), "{:?}", text);
    }
}
