use std::time::Duration;
use std::time::SystemTime;
use vstd::prelude::*;

verus! {

/// The adjustable values of a photo that a single slider or key changes.
#[derive(Debug, Clone, Copy, PartialEq, Eq, Structural)]
pub enum Parameter {
    Exposure,
    Contrast,
    Shadows,
    Midtones,
    Highlights,
    Tint,
    Temperature,
    Saturation,
    CropAngle,
    CropScale,
}

/// The aspect ratio a crop is held to: that of the source image, or a fixed
/// ratio of width to height.
#[derive(Debug, Clone, Copy, PartialEq, Eq, Structural)]
pub enum CropPreset {
    Original,
    Ratio(i32, i32),
}

impl CropPreset {
    /// The preset for the crop turned by a quarter: a ratio swaps its sides.
    pub open spec fn rotated(self) -> CropPreset {
        match self {
            CropPreset::Original => CropPreset::Original,
            CropPreset::Ratio(width, height) => CropPreset::Ratio(height, width),
        }
    }

    pub fn rotate(&self) -> (result: CropPreset)
        ensures
            result == self.rotated(),
    {
        match self {
            CropPreset::Original => CropPreset::Original,
            CropPreset::Ratio(width, height) => CropPreset::Ratio(*height, *width),
        }
    }
}

impl Default for CropPreset {
    fn default() -> (result: Self)
        ensures
            result == CropPreset::Original,
    {
        CropPreset::Original
    }
}

/// Turning a preset twice by a quarter gives the preset back.
pub proof fn lemma_rotate_preset_twice(preset: CropPreset)
    ensures
        preset.rotated().rotated() == preset,
{
}

// ---------------------------------------------------------------------------
// The clock that decides whether an edit opens a new history entry.

#[verifier::external_type_specification]
#[verifier::external_body]
pub struct ExSystemTime(std::time::SystemTime);

/// Calls `SystemTime::now`. Nothing is claimed of the instant it returns.
#[verifier::external_body]
fn system_time_now() -> SystemTime {
    SystemTime::now()
}

/// Calls `SystemTime::elapsed` on `time`, with its error (a clock that went
/// backwards) as `None`. Nothing is claimed of the duration: it depends on
/// the clock.
#[verifier::external_body]
fn elapsed_since(time: &SystemTime) -> Option<Duration> {
    time.elapsed().ok()
}

/// Calls `Duration::as_secs`. Nothing is claimed of the number: a duration
/// is opaque here.
#[verifier::external_body]
fn duration_as_secs(duration: &Duration) -> u64 {
    duration.as_secs()
}

// ---------------------------------------------------------------------------
// The undo history of a photo's parameters.

/// A history is valid when it has an entry at its position.
pub open spec fn history_valid<P>(entries: Seq<P>, index: int) -> bool {
    0 <= index < entries.len()
}

/// The position after an undo: one step back, unless at the oldest entry.
pub open spec fn undo_index(index: int) -> int {
    if index > 0 {
        index - 1
    } else {
        index
    }
}

/// The position after a redo: one step forward, unless at the newest entry.
pub open spec fn redo_index(len: int, index: int) -> int {
    if index < len - 1 {
        index + 1
    } else {
        index
    }
}

/// The entries after recording `new`: nothing changes when it equals the
/// current entry; otherwise it either replaces the current entry or, when a
/// new entry is due, follows it and drops every entry that an undo had left
/// ahead of the position.
pub open spec fn recorded_entries<P>(
    entries: Seq<P>,
    index: int,
    new: P,
    changed: bool,
    needs_new: bool,
) -> Seq<P> {
    if !changed {
        entries
    } else if needs_new {
        entries.take(index + 1).push(new)
    } else {
        entries.update(index, new)
    }
}

/// The position after recording: it moves onto a new entry, if one is made.
pub open spec fn recorded_index(index: int, changed: bool, needs_new: bool) -> int {
    if changed && needs_new {
        index + 1
    } else {
        index
    }
}

/// Whether an edit opens a new history entry, given the whole seconds
/// since the last new entry was made: once at least one second has passed.
/// A clock that went backwards (`None`) counts as no time passed, so edits
/// keep going to the current entry.
pub open spec fn new_entry_due(elapsed_secs: Option<u64>) -> bool {
    match elapsed_secs {
        Some(secs) => secs >= 1,
        None => false,
    }
}

/// Whether an edit made `elapsed_secs` whole seconds after the last new
/// entry opens a new one: edits within the same second form one undo step.
pub fn needs_new_entry(elapsed_secs: Option<u64>) -> (result: bool)
    ensures
        result == new_entry_due(elapsed_secs),
{
    match elapsed_secs {
        Some(secs) => secs >= 1,
        None => false,
    }
}

/// The parameters of a photo together with every earlier state that an
/// undo can return to, and the later states that a redo can return to.
pub struct ParameterHistory<P> {
    parameter_history: Vec<P>,
    parameter_history_index: usize,
    last_updated: SystemTime,
    last_updated_parameter: Option<Parameter>,
}

impl<P> View for ParameterHistory<P> {
    /// The entries, oldest first, and the position of the current one.
    type V = (Seq<P>, int);

    closed spec fn view(&self) -> (Seq<P>, int) {
        (self.parameter_history@, self.parameter_history_index as int)
    }
}

impl<P> ParameterHistory<P> {
    /// Every history has an entry at its position.
    pub open spec fn well_formed(&self) -> bool {
        history_valid(self.entries(), self.position())
    }

    /// The entries, oldest first.
    pub open spec fn entries(&self) -> Seq<P> {
        self@.0
    }

    /// The position of the current entry.
    pub open spec fn position(&self) -> int {
        self@.1
    }

    /// The parameters now in effect.
    pub open spec fn current_spec(&self) -> P {
        self@.0[self@.1]
    }

    /// The parameter that the last single-value edit changed.
    pub closed spec fn last_parameter(&self) -> Option<Parameter> {
        self.last_updated_parameter
    }

    /// Starts a history whose only entry is `parameters`.
    pub fn new(parameters: P) -> (result: Self)
        ensures
            result.entries() == seq![parameters],
            result.position() == 0,
            result.last_parameter() == None::<Parameter>,
            result.well_formed(),
    {
        let mut parameter_history = Vec::new();
        parameter_history.push(parameters);
        ParameterHistory {
            parameter_history,
            parameter_history_index: 0,
            last_updated: system_time_now(),
            last_updated_parameter: None,
        }
    }

    /// Whether the history has an entry at its position, as every history
    /// that this module hands out has.
    pub fn is_well_formed(&self) -> (result: bool)
        ensures
            result == self.well_formed(),
    {
        self.parameter_history_index < self.parameter_history.len()
    }

    /// The parameters now in effect.
    pub fn current(&self) -> (result: &P)
        requires
            self.well_formed(),
        ensures
            *result == self.current_spec(),
    {
        &self.parameter_history[self.parameter_history_index]
    }

    /// The parameter that the last single-value edit changed, if any.
    pub fn last_updated_parameter(&self) -> (result: Option<Parameter>)
        ensures
            result == self.last_parameter(),
    {
        self.last_updated_parameter
    }

    /// Steps back to the previous entry, if there is one.
    pub fn undo(&mut self)
        requires
            old(self).well_formed(),
        ensures
            final(self).well_formed(),
            final(self).entries() == old(self).entries(),
            final(self).position() == undo_index(old(self).position()),
            final(self).last_parameter() == old(self).last_parameter(),
    {
        if self.parameter_history_index > 0 {
            self.parameter_history_index = self.parameter_history_index - 1;
        }
    }

    /// Steps forward to the next entry, if an undo has left one.
    pub fn redo(&mut self)
        requires
            old(self).well_formed(),
        ensures
            final(self).well_formed(),
            final(self).entries() == old(self).entries(),
            final(self).position() == redo_index(
                old(self).entries().len() as int,
                old(self).position(),
            ),
            final(self).last_parameter() == old(self).last_parameter(),
    {
        if self.parameter_history_index < self.parameter_history.len() - 1 {
            self.parameter_history_index = self.parameter_history_index + 1;
        }
    }

    /// Records `new` as the parameters in effect. `changed` tells whether
    /// `new` differs from the current entry, and `needs_new` whether a new
    /// entry is due; the current entry is overwritten otherwise.
    pub fn record(&mut self, new: P, changed: bool, needs_new: bool)
        requires
            old(self).well_formed(),
        ensures
            final(self).well_formed(),
            final(self).entries() == recorded_entries(
                old(self).entries(),
                old(self).position(),
                new,
                changed,
                needs_new,
            ),
            final(self).position() == recorded_index(old(self).position(), changed, needs_new),
            final(self).last_parameter() == old(self).last_parameter(),
    {
        if changed {
            if needs_new {
                let index = self.parameter_history_index;
                let len = self.parameter_history.len();
                assert(index < len);
                self.parameter_history.truncate(index + 1);
                self.parameter_history.push(new);
                self.parameter_history_index = index + 1;
                self.last_updated = system_time_now();
            } else {
                let index = self.parameter_history_index;
                self.parameter_history.set(index, new);
            }
        }
    }

    /// Whether a second has passed since the last new entry, as the clock
    /// tells it now.
    fn needs_new(&self) -> bool {
        match elapsed_since(&self.last_updated) {
            Some(elapsed) => needs_new_entry(Some(duration_as_secs(&elapsed))),
            None => needs_new_entry(None),
        }
    }

    /// Records `new` as the parameters in effect, in a new entry if a second
    /// has passed since the last one was made (`needs_new_entry`), so that
    /// edits within a second form one undo step.
    pub fn update(&mut self, new: P, changed: bool)
        requires
            old(self).well_formed(),
        ensures
            final(self).well_formed(),
            ({
                let needs_new = final(self).position() != old(self).position();
                &&& final(self).entries() == recorded_entries(
                    old(self).entries(),
                    old(self).position(),
                    new,
                    changed,
                    needs_new,
                )
                &&& final(self).position() == recorded_index(
                    old(self).position(),
                    changed,
                    needs_new,
                )
            }),
            final(self).last_parameter() == old(self).last_parameter(),
    {
        let needs_new = self.needs_new();
        self.record(new, changed, needs_new);
    }

    /// Records `new` after an edit of the single value `parameter`, which
    /// later "last parameter" edits change again.
    pub fn update_parameter(&mut self, parameter: Parameter, new: P, changed: bool)
        requires
            old(self).well_formed(),
        ensures
            final(self).well_formed(),
            ({
                let needs_new = final(self).position() != old(self).position();
                &&& final(self).entries() == recorded_entries(
                    old(self).entries(),
                    old(self).position(),
                    new,
                    changed,
                    needs_new,
                )
                &&& final(self).position() == recorded_index(
                    old(self).position(),
                    changed,
                    needs_new,
                )
            }),
            final(self).last_parameter() == Some(parameter),
    {
        self.last_updated_parameter = Some(parameter);
        self.update(new, changed);
    }
}

} // verus!

verus! {

/// A redo right after an undo that moved returns to the entry the undo left.
pub proof fn lemma_undo_then_redo<P>(entries: Seq<P>, index: int)
    requires
        history_valid(entries, index),
        index > 0,
    ensures
        history_valid(entries, undo_index(index)),
        redo_index(entries.len() as int, undo_index(index)) == index,
{
}

/// An undo steps back by one entry, except at the oldest, where it stays;
/// a redo steps forward by one, except at the newest, where it stays.
pub proof fn lemma_undo_redo_step_by_one<P>(entries: Seq<P>, index: int)
    requires
        history_valid(entries, index),
    ensures
        index > 0 ==> undo_index(index) == index - 1,
        index == 0 ==> undo_index(index) == 0,
        index < entries.len() - 1 ==> redo_index(entries.len() as int, index) == index + 1,
        index == entries.len() - 1 ==> redo_index(entries.len() as int, index) == index,
{
}

/// An edit opens a new undo step exactly when at least one whole second
/// has passed since the last one was opened; while the clock reads less
/// than a second, or has gone backwards, edits go to the current step.
pub proof fn lemma_new_entry_after_one_second(secs: u64)
    ensures
        new_entry_due(Some(secs)) <==> secs >= 1,
        !new_entry_due(None),
        recorded_index(0, true, new_entry_due(Some(2))) == 1,
        recorded_index(0, true, new_entry_due(Some(0))) == 0,
{
}

/// An undo right after a redo that moved returns to the entry the redo left.
pub proof fn lemma_redo_then_undo<P>(entries: Seq<P>, index: int)
    requires
        history_valid(entries, index),
        index < entries.len() - 1,
    ensures
        history_valid(entries, redo_index(entries.len() as int, index)),
        undo_index(redo_index(entries.len() as int, index)) == index,
{
}

/// Undo and redo never leave the entries: the position stays valid.
pub proof fn lemma_undo_redo_stay_valid<P>(entries: Seq<P>, index: int)
    requires
        history_valid(entries, index),
    ensures
        history_valid(entries, undo_index(index)),
        history_valid(entries, redo_index(entries.len() as int, index)),
{
}

/// Recording keeps a history valid, and a change becomes the parameters in
/// effect; recording parameters equal to the current ones changes nothing.
pub proof fn lemma_record_current<P>(
    entries: Seq<P>,
    index: int,
    new: P,
    changed: bool,
    needs_new: bool,
)
    requires
        history_valid(entries, index),
    ensures
        history_valid(
            recorded_entries(entries, index, new, changed, needs_new),
            recorded_index(index, changed, needs_new),
        ),
        changed ==> recorded_entries(entries, index, new, changed, needs_new)[recorded_index(
            index,
            changed,
            needs_new,
        )] == new,
        !changed ==> recorded_entries(entries, index, new, changed, needs_new) == entries
            && recorded_index(index, changed, needs_new) == index,
{
}

/// Recording never rewrites the entries that an undo can reach: every
/// entry before the current one stays as it was.
pub proof fn lemma_record_keeps_past<P>(
    entries: Seq<P>,
    index: int,
    new: P,
    changed: bool,
    needs_new: bool,
    j: int,
)
    requires
        history_valid(entries, index),
        0 <= j < index,
    ensures
        recorded_entries(entries, index, new, changed, needs_new)[j] == entries[j],
{
}

/// Recording, with `changed` telling truly whether `new` differs from the
/// parameters in effect, leaves `new` in effect whether a new entry was due
/// or not; the history stays valid, grows by at most one entry, and keeps
/// every entry up to the one that was in effect.
pub proof fn lemma_record_with_true_change_flag<P>(
    entries: Seq<P>,
    index: int,
    new: P,
    changed: bool,
    needs_new: bool,
)
    requires
        history_valid(entries, index),
        changed == (new != entries[index]),
    ensures
        history_valid(
            recorded_entries(entries, index, new, changed, needs_new),
            recorded_index(index, changed, needs_new),
        ),
        recorded_entries(entries, index, new, changed, needs_new)[recorded_index(
            index,
            changed,
            needs_new,
        )] == new,
        recorded_entries(entries, index, new, changed, needs_new).len() <= entries.len() + 1,
        forall|j: int|
            0 <= j < recorded_index(index, changed, needs_new) ==> #[trigger] recorded_entries(
                entries,
                index,
                new,
                changed,
                needs_new,
            )[j] == entries[j],
{
}

/// After a change recorded as a new entry, an undo brings back the
/// parameters that were in effect before it.
pub proof fn lemma_undo_after_new_entry<P>(entries: Seq<P>, index: int, new: P)
    requires
        history_valid(entries, index),
    ensures
        recorded_entries(entries, index, new, true, true)[undo_index(
            recorded_index(index, true, true),
        )] == entries[index],
{
}

/// A change recorded as a new entry discards whatever an undo had left
/// ahead: afterwards a redo does nothing.
pub proof fn lemma_new_entry_ends_redo<P>(entries: Seq<P>, index: int, new: P)
    requires
        history_valid(entries, index),
    ensures
        redo_index(
            recorded_entries(entries, index, new, true, true).len() as int,
            recorded_index(index, true, true),
        ) == recorded_index(index, true, true),
{
}

} // verus!

verus! {

/// The parts of a crop that a quarter turn changes: its preset and how many
/// quarter turns (clockwise, 0 to 3) it is turned by.
#[derive(Debug, Clone, Copy, PartialEq, Eq, Structural)]
pub struct CropOrientation {
    pub preset: CropPreset,
    pub rotation: i32,
}

/// The quarter turns after one more turn to the left: Rust's remainder,
/// which keeps the sign of `rotation + 1`.
pub open spec fn rotation_after_left(rotation: int) -> int {
    let next = rotation + 1;
    if next >= 0 {
        next % 4
    } else {
        -((-next) % 4)
    }
}

/// The quarter turns after one turn to the right: below zero wraps to 3.
pub open spec fn rotation_after_right(rotation: int) -> int {
    if rotation - 1 < 0 {
        3
    } else {
        rotation - 1
    }
}

impl CropOrientation {
    /// Turns the crop a quarter to the left.
    pub fn rotate_left(&mut self)
        requires
            old(self).rotation < i32::MAX,
        ensures
            final(self).preset == old(self).preset.rotated(),
            final(self).rotation == rotation_after_left(old(self).rotation as int),
    {
        self.preset = self.preset.rotate();
        self.rotation = (self.rotation + 1) % 4;
    }

    /// Turns the crop a quarter to the right.
    pub fn rotate_right(&mut self)
        requires
            old(self).rotation > i32::MIN,
        ensures
            final(self).preset == old(self).preset.rotated(),
            final(self).rotation == rotation_after_right(old(self).rotation as int),
    {
        self.preset = self.preset.rotate();
        self.rotation = self.rotation - 1;
        if self.rotation < 0 {
            self.rotation = 3;
        }
    }
}

/// For a crop turned by 0 to 3 quarters, a turn to the left adds a
/// quarter and a turn to the right takes one away, wrapping round four
/// quarters; four turns the same way give the crop back.
pub proof fn lemma_turns_count_quarters(rotation: int)
    requires
        0 <= rotation < 4,
    ensures
        rotation_after_left(rotation) == (rotation + 1) % 4,
        rotation_after_right(rotation) == (rotation + 3) % 4,
        rotation_after_left(rotation) != rotation,
        rotation_after_left(
            rotation_after_left(rotation_after_left(rotation_after_left(rotation))),
        ) == rotation,
{
}

/// A quarter turn swaps the sides of a fixed ratio and keeps the original
/// ratio.
pub proof fn lemma_rotated_preset_swaps_sides(width: i32, height: i32)
    ensures
        CropPreset::Ratio(width, height).rotated() == CropPreset::Ratio(height, width),
        CropPreset::Original.rotated() == CropPreset::Original,
{
}

/// A turn to the left and one to the right undo each other, in either
/// order, for a crop turned by 0 to 3 quarters; both keep it in that range.
pub proof fn lemma_left_right_inverse(rotation: int)
    requires
        0 <= rotation < 4,
    ensures
        0 <= rotation_after_left(rotation) < 4,
        0 <= rotation_after_right(rotation) < 4,
        rotation_after_right(rotation_after_left(rotation)) == rotation,
        rotation_after_left(rotation_after_right(rotation)) == rotation,
{
}

} // verus!
