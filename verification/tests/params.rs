use std::collections::HashSet;

use kickforge::params::{param_id_from_key, settable_param_ids, FxField, ParamId, SETTABLE_PARAM_COUNT};

#[test]
fn fixed_keys() {
    assert_eq!(ParamId::ClickEnabled.key(), "clickEnabled");
    assert_eq!(ParamId::BodyDistortionType.key(), "bodyDistortionType");
    assert_eq!(ParamId::NoiseFilterFreq.key(), "noiseFilterFreq");
    assert_eq!(ParamId::VelToClick.key(), "velToClick");
    assert_eq!(ParamId::BodyFeedback.key(), "bodyFeedback");
    assert_eq!(ParamId::BodyHold.key(), "bodyHold");
    assert_eq!(ParamId::BodySplitFreq.key(), "bodySplitFreq");
    assert_eq!(ParamId::MasterHigh.key(), "masterHigh");
}

#[test]
fn fx_slot_keys() {
    assert_eq!(ParamId::FxSlot { slot: 0, field: FxField::Type }.key(), "fxSlot0Type");
    assert_eq!(ParamId::FxSlot { slot: 3, field: FxField::On }.key(), "fxSlot3On");
    assert_eq!(ParamId::FxSlot { slot: 7, field: FxField::P6 }.key(), "fxSlot7P6");
}

#[test]
fn table_has_each_param_once() {
    let ids = settable_param_ids();
    assert_eq!(ids.len(), SETTABLE_PARAM_COUNT);
    assert_eq!(SETTABLE_PARAM_COUNT, 108);
    let keys: HashSet<String> = ids.iter().map(|id| id.key()).collect();
    assert_eq!(keys.len(), 108);
    assert_eq!(ids[0], ParamId::ClickEnabled);
    assert_eq!(ids[17], ParamId::BodyFeedback);
    assert_eq!(ids[37], ParamId::FxSlot { slot: 0, field: FxField::Type });
    assert_eq!(ids[100], ParamId::FxSlot { slot: 7, field: FxField::P6 });
    assert_eq!(ids[107], ParamId::MasterHigh);
}

#[test]
fn key_lookup_roundtrip() {
    for id in settable_param_ids() {
        assert_eq!(param_id_from_key(&id.key()), Some(id));
    }
}

#[test]
fn key_lookup_examples() {
    assert_eq!(param_id_from_key("bodyDrive"), Some(ParamId::BodyDrive));
    assert_eq!(
        param_id_from_key("fxSlot3P5"),
        Some(ParamId::FxSlot { slot: 3, field: FxField::P5 })
    );
    assert_eq!(param_id_from_key("bodyFeedback"), Some(ParamId::BodyFeedback));
    assert_eq!(param_id_from_key("bodyHold"), Some(ParamId::BodyHold));
    assert_eq!(param_id_from_key("bodySplitFreq"), Some(ParamId::BodySplitFreq));
    // Unknown keys.
    assert_eq!(param_id_from_key("fxSlot8Type"), None);
    assert_eq!(param_id_from_key("body_drive"), None);
    assert_eq!(param_id_from_key(""), None);
    assert_eq!(param_id_from_key("bodyDrive "), None);
}

#[test]
fn field_indices() {
    let all = [FxField::Type, FxField::On, FxField::P1, FxField::P2, FxField::P3, FxField::P4, FxField::P5, FxField::P6];
    for (i, f) in all.iter().enumerate() {
        assert_eq!(FxField::from_index(i), *f);
    }
    assert_eq!(FxField::P3.suffix(), "P3");
}
