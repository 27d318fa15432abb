use photo_editor::workspace::parameters::{
    needs_new_entry, CropOrientation, CropPreset, Parameter, ParameterHistory,
};

#[test]
fn new_history_has_one_entry() {
    let history = ParameterHistory::new(7);
    assert_eq!(*history.current(), 7);
    assert_eq!(history.last_updated_parameter(), None);
}

#[test]
fn undo_on_fresh_history_keeps_current() {
    let mut history = ParameterHistory::new(1);
    history.undo();
    assert_eq!(*history.current(), 1);
    history.redo();
    assert_eq!(*history.current(), 1);
}

#[test]
fn record_new_entries_then_undo_and_redo() {
    let mut history = ParameterHistory::new(1);
    history.record(2, true, true);
    history.record(3, true, true);
    assert_eq!(*history.current(), 3);
    history.undo();
    assert_eq!(*history.current(), 2);
    history.undo();
    assert_eq!(*history.current(), 1);
    history.undo();
    assert_eq!(*history.current(), 1);
    history.redo();
    assert_eq!(*history.current(), 2);
    history.redo();
    assert_eq!(*history.current(), 3);
    history.redo();
    assert_eq!(*history.current(), 3);
}

#[test]
fn record_overwrites_current_entry_when_no_new_entry_is_due() {
    let mut history = ParameterHistory::new(1);
    history.record(2, true, true);
    history.record(5, true, false);
    assert_eq!(*history.current(), 5);
    history.undo();
    assert_eq!(*history.current(), 1);
    history.redo();
    assert_eq!(*history.current(), 5);
}

#[test]
fn record_unchanged_does_nothing() {
    let mut history = ParameterHistory::new(1);
    history.record(9, false, true);
    assert_eq!(*history.current(), 1);
    history.undo();
    assert_eq!(*history.current(), 1);
}

#[test]
fn new_entry_after_undo_discards_redo() {
    let mut history = ParameterHistory::new(1);
    history.record(2, true, true);
    history.record(3, true, true);
    history.undo();
    history.undo();
    history.record(4, true, true);
    assert_eq!(*history.current(), 4);
    history.redo();
    assert_eq!(*history.current(), 4);
    history.undo();
    assert_eq!(*history.current(), 1);
}

#[test]
fn undo_after_new_entry_restores_previous() {
    let mut history = ParameterHistory::new(10);
    history.record(20, true, true);
    history.undo();
    assert_eq!(*history.current(), 10);
}

#[test]
fn update_makes_change_current() {
    let mut history = ParameterHistory::new(1);
    history.update(2, true);
    assert_eq!(*history.current(), 2);
    history.update(3, false);
    assert_eq!(*history.current(), 2);
}

#[test]
fn update_parameter_remembers_parameter() {
    let mut history = ParameterHistory::new(1);
    history.update_parameter(Parameter::Contrast, 2, true);
    assert_eq!(history.last_updated_parameter(), Some(Parameter::Contrast));
    assert_eq!(*history.current(), 2);
    history.update_parameter(Parameter::CropAngle, 2, false);
    assert_eq!(history.last_updated_parameter(), Some(Parameter::CropAngle));
    history.undo();
    assert_eq!(history.last_updated_parameter(), Some(Parameter::CropAngle));
}

#[test]
fn crop_preset_rotate_swaps_ratio() {
    assert_eq!(CropPreset::Ratio(16, 9).rotate(), CropPreset::Ratio(9, 16));
    assert_eq!(CropPreset::Original.rotate(), CropPreset::Original);
    assert_eq!(CropPreset::Ratio(4, 3).rotate().rotate(), CropPreset::Ratio(4, 3));
    assert_eq!(CropPreset::default(), CropPreset::Original);
}

#[test]
fn crop_rotate_left_wraps_after_three() {
    let mut orientation = CropOrientation { preset: CropPreset::Ratio(3, 2), rotation: 3 };
    orientation.rotate_left();
    assert_eq!(orientation, CropOrientation { preset: CropPreset::Ratio(2, 3), rotation: 0 });
    orientation.rotate_left();
    assert_eq!(orientation.rotation, 1);
}

#[test]
fn crop_rotate_right_wraps_below_zero() {
    let mut orientation = CropOrientation { preset: CropPreset::Original, rotation: 0 };
    orientation.rotate_right();
    assert_eq!(orientation, CropOrientation { preset: CropPreset::Original, rotation: 3 });
    orientation.rotate_right();
    assert_eq!(orientation.rotation, 2);
}

#[test]
fn crop_rotate_left_keeps_sign_of_remainder() {
    let mut orientation = CropOrientation { preset: CropPreset::Original, rotation: -7 };
    orientation.rotate_left();
    assert_eq!(orientation.rotation, -2);
}

#[test]
fn crop_rotate_left_then_right_restores() {
    for rotation in 0..4 {
        let start = CropOrientation { preset: CropPreset::Ratio(5, 4), rotation };
        let mut orientation = start;
        orientation.rotate_left();
        orientation.rotate_right();
        assert_eq!(orientation, start);
        orientation.rotate_right();
        orientation.rotate_left();
        assert_eq!(orientation, start);
    }
}

#[test]
fn new_entry_only_after_a_whole_second() {
    assert!(!needs_new_entry(None));
    assert!(!needs_new_entry(Some(0)));
    assert!(needs_new_entry(Some(1)));
    assert!(needs_new_entry(Some(100)));
}
