//! The gizmo configuration byte and what is derived from it.
//!
//! The host writes one byte of flags; the simulation loop compares it with
//! the byte it applied last and, only when the two differ, derives the gizmo
//! orientation and the set of enabled interaction modes anew.

use vstd::prelude::*;
use transform_gizmo_bevy::prelude::EnumSet;
use transform_gizmo_bevy::prelude::GizmoMode;

verus! {

/// Bit 0: the gizmo is aligned to world space.
pub const orientationIsGlobalBit: u8 = 0b0000_0001;

/// Bit 1: the scale handles are shown.
pub const scaleIsVisibleBit: u8 = 0b0000_0010;

/// Bit 2: the translation handles are shown.
pub const translationIsVisibleBit: u8 = 0b0000_0100;

/// Bit 3: the rotation handles are shown.
pub const rotationIsVisibleBit: u8 = 0b0000_1000;

/// The flags that the host asks for.
#[derive(Clone, Copy, Debug, PartialEq, Eq, Structural)]
pub struct CustomGizmoOptions {
    pub gizmoFlags: u8,
}

/// The flags that the simulation loop applied last.
#[derive(Clone, Copy, Debug, PartialEq, Eq, Structural)]
pub struct PreviousCustomGizmoOptions {
    pub gizmoFlags: u8,
}

/// How the gizmo's axes are aligned.
#[derive(Clone, Copy, Debug, PartialEq, Eq, Structural)]
pub enum Orientation {
    /// To world space.
    Global,
    /// To the selected object.
    Local,
}

/// A family of interaction modes that one flag bit switches on and off.
#[derive(Clone, Copy, Debug, PartialEq, Eq, Structural)]
pub enum ModeGroup {
    Scale,
    Translation,
    Rotation,
}

/// One interaction mode of the gizmo.
#[derive(Clone, Copy, Debug, PartialEq, Eq, Structural)]
pub enum TransformMode {
    ScaleUniform,
    ScaleX,
    ScaleY,
    ScaleZ,
    TranslateView,
    TranslateX,
    TranslateY,
    TranslateZ,
    RotateView,
    RotateX,
    RotateY,
    RotateZ,
}

impl ModeGroup {
    /// The flag bit that switches this family on.
    pub open spec fn spec_bit(self) -> u8 {
        match self {
            ModeGroup::Scale => scaleIsVisibleBit,
            ModeGroup::Translation => translationIsVisibleBit,
            ModeGroup::Rotation => rotationIsVisibleBit,
        }
    }

    /// The flag bit that switches this family on.
    #[verifier::when_used_as_spec(spec_bit)]
    pub fn bit(self) -> (bit: u8)
        ensures
            bit == self.spec_bit(),
    {
        match self {
            ModeGroup::Scale => scaleIsVisibleBit,
            ModeGroup::Translation => translationIsVisibleBit,
            ModeGroup::Rotation => rotationIsVisibleBit,
        }
    }

    /// The four modes of this family.
    pub open spec fn spec_modes(self) -> Seq<TransformMode> {
        match self {
            ModeGroup::Scale => seq![
                TransformMode::ScaleUniform,
                TransformMode::ScaleX,
                TransformMode::ScaleY,
                TransformMode::ScaleZ,
            ],
            ModeGroup::Translation => seq![
                TransformMode::TranslateView,
                TransformMode::TranslateX,
                TransformMode::TranslateY,
                TransformMode::TranslateZ,
            ],
            ModeGroup::Rotation => seq![
                TransformMode::RotateView,
                TransformMode::RotateX,
                TransformMode::RotateY,
                TransformMode::RotateZ,
            ],
        }
    }

    /// The four modes of this family.
    pub fn modes(self) -> (modes: [TransformMode; 4])
        ensures
            modes@ == self.spec_modes(),
    {
        let modes = match self {
            ModeGroup::Scale => [
                TransformMode::ScaleUniform,
                TransformMode::ScaleX,
                TransformMode::ScaleY,
                TransformMode::ScaleZ,
            ],
            ModeGroup::Translation => [
                TransformMode::TranslateView,
                TransformMode::TranslateX,
                TransformMode::TranslateY,
                TransformMode::TranslateZ,
            ],
            ModeGroup::Rotation => [
                TransformMode::RotateView,
                TransformMode::RotateX,
                TransformMode::RotateY,
                TransformMode::RotateZ,
            ],
        };
        assert(modes@ =~= self.spec_modes());
        modes
    }

    /// The place of this family in the order in which the flags are read.
    pub open spec fn spec_index(self) -> int {
        match self {
            ModeGroup::Scale => 0,
            ModeGroup::Translation => 1,
            ModeGroup::Rotation => 2,
        }
    }
}

impl TransformMode {
    /// The family this mode belongs to.
    pub open spec fn spec_group(self) -> ModeGroup {
        match self {
            TransformMode::ScaleUniform | TransformMode::ScaleX | TransformMode::ScaleY
            | TransformMode::ScaleZ => ModeGroup::Scale,
            TransformMode::TranslateView | TransformMode::TranslateX | TransformMode::TranslateY
            | TransformMode::TranslateZ => ModeGroup::Translation,
            TransformMode::RotateView | TransformMode::RotateX | TransformMode::RotateY
            | TransformMode::RotateZ => ModeGroup::Rotation,
        }
    }

    /// The family this mode belongs to.
    #[verifier::when_used_as_spec(spec_group)]
    pub fn group(self) -> (group: ModeGroup)
        ensures
            group == self.spec_group(),
    {
        match self {
            TransformMode::ScaleUniform | TransformMode::ScaleX | TransformMode::ScaleY
            | TransformMode::ScaleZ => ModeGroup::Scale,
            TransformMode::TranslateView | TransformMode::TranslateX | TransformMode::TranslateY
            | TransformMode::TranslateZ => ModeGroup::Translation,
            TransformMode::RotateView | TransformMode::RotateX | TransformMode::RotateY
            | TransformMode::RotateZ => ModeGroup::Rotation,
        }
    }
}

/// Whether `bit` is set in `flags`.
pub open spec fn flag_set(flags: u8, bit: u8) -> bool {
    flags & bit != 0
}

/// The orientation that `flags` asks for.
pub open spec fn orientation_of(flags: u8) -> Orientation {
    if flag_set(flags, orientationIsGlobalBit) {
        Orientation::Global
    } else {
        Orientation::Local
    }
}

/// The modes that `flags` enables: every mode of every family whose bit is
/// set.
pub open spec fn modes_of(flags: u8) -> Set<TransformMode> {
    Set::new(|mode: TransformMode| flag_set(flags, mode.spec_group().spec_bit()))
}

/// The set of enabled interaction modes, as the gizmo takes it: an
/// `EnumSet<GizmoMode>` of enumset. The verifier does not look inside; what
/// the set holds is known only through [`enabled_modes`] and the three
/// functions below, whose contracts are taken on trust.
#[verifier::external_body]
pub struct ModeSet {
    inner: EnumSet<GizmoMode>,
}

/// The modes that a set holds, each named by the mode of this library that
/// stands for it.
pub uninterp spec fn enabled_modes(set: ModeSet) -> Set<TransformMode>;

impl View for ModeSet {
    type V = Set<TransformMode>;

    open spec fn view(&self) -> Set<TransformMode> {
        enabled_modes(*self)
    }
}

/// `EnumSet::new` of enumset: a set that holds no mode.
#[verifier::external_body]
fn empty_mode_set() -> (set: ModeSet)
    ensures
        enabled_modes(set) == Set::<TransformMode>::empty(),
{
    ModeSet { inner: EnumSet::new() }
}

/// `EnumSet::insert` of enumset: afterwards the set holds `mode` and
/// whatever it held before. The mode is handed over as the gizmo's own mode
/// of the same name.
#[verifier::external_body]
fn insert_mode(set: &mut ModeSet, mode: TransformMode)
    ensures
        enabled_modes(*final(set)) == enabled_modes(*old(set)).insert(mode),
{
    set.inner.insert(match mode {
        TransformMode::ScaleUniform => GizmoMode::ScaleUniform,
        TransformMode::ScaleX => GizmoMode::ScaleX,
        TransformMode::ScaleY => GizmoMode::ScaleY,
        TransformMode::ScaleZ => GizmoMode::ScaleZ,
        TransformMode::TranslateView => GizmoMode::TranslateView,
        TransformMode::TranslateX => GizmoMode::TranslateX,
        TransformMode::TranslateY => GizmoMode::TranslateY,
        TransformMode::TranslateZ => GizmoMode::TranslateZ,
        TransformMode::RotateView => GizmoMode::RotateView,
        TransformMode::RotateX => GizmoMode::RotateX,
        TransformMode::RotateY => GizmoMode::RotateY,
        TransformMode::RotateZ => GizmoMode::RotateZ,
    });
}

/// `EnumSet::contains` of enumset: whether the set holds the gizmo's own
/// mode of the same name as `mode`.
#[verifier::external_body]
fn holds_mode(set: &ModeSet, mode: TransformMode) -> (held: bool)
    ensures
        held == enabled_modes(*set).contains(mode),
{
    set.inner.contains(match mode {
        TransformMode::ScaleUniform => GizmoMode::ScaleUniform,
        TransformMode::ScaleX => GizmoMode::ScaleX,
        TransformMode::ScaleY => GizmoMode::ScaleY,
        TransformMode::ScaleZ => GizmoMode::ScaleZ,
        TransformMode::TranslateView => GizmoMode::TranslateView,
        TransformMode::TranslateX => GizmoMode::TranslateX,
        TransformMode::TranslateY => GizmoMode::TranslateY,
        TransformMode::TranslateZ => GizmoMode::TranslateZ,
        TransformMode::RotateView => GizmoMode::RotateView,
        TransformMode::RotateX => GizmoMode::RotateX,
        TransformMode::RotateY => GizmoMode::RotateY,
        TransformMode::RotateZ => GizmoMode::RotateZ,
    })
}

impl ModeSet {
    /// Whether `mode` is enabled.
    pub fn contains(&self, mode: TransformMode) -> (held: bool)
        ensures
            held == self@.contains(mode),
    {
        holds_mode(self, mode)
    }
}

/// What the simulation loop hands to the gizmo after the flags changed.
pub struct GizmoSettings {
    pub orientation: Orientation,
    pub modes: ModeSet,
}

/// The modes of one family.
pub open spec fn family(group: ModeGroup) -> Set<TransformMode> {
    Set::new(|mode: TransformMode| mode.spec_group() == group)
}

/// The modes that `flags` enables among the first `count` families.
pub open spec fn modes_among(flags: u8, count: int) -> Set<TransformMode> {
    Set::new(
        |mode: TransformMode|
            flag_set(flags, mode.spec_group().spec_bit()) && mode.spec_group().spec_index()
                < count,
    )
}

/// Enables the four modes of one family, on top of what is enabled.
fn enable_family(set: &mut ModeSet, group: ModeGroup)
    ensures
        final(set)@ == old(set)@.union(family(group)),
{
    let modes = group.modes();
    insert_mode(set, modes[0]);
    insert_mode(set, modes[1]);
    insert_mode(set, modes[2]);
    insert_mode(set, modes[3]);
    assert(set@ =~= old(set)@.union(family(group)));
}

/// Derives the gizmo's settings from the flags: the orientation from bit 0,
/// and the enabled modes as the union of the families whose bit is set.
pub fn derive_settings(flags: u8) -> (settings: GizmoSettings)
    ensures
        settings.orientation == orientation_of(flags),
        settings.modes@ == modes_of(flags),
{
    let orientation = if flags & orientationIsGlobalBit != 0 {
        Orientation::Global
    } else {
        Orientation::Local
    };
    let groups = [ModeGroup::Scale, ModeGroup::Translation, ModeGroup::Rotation];
    let mut set = empty_mode_set();
    assert(set@ =~= modes_among(flags, 0));
    let mut g: usize = 0;
    while g < 3
        invariant
            g <= 3,
            forall|k: int| 0 <= k < 3 ==> (#[trigger] groups@[k]).spec_index() == k,
            set@ == modes_among(flags, g as int),
        decreases 3 - g,
    {
        let group = groups[g];
        if flags & group.bit() != 0 {
            enable_family(&mut set, group);
        }
        assert(set@ =~= modes_among(flags, g + 1));
        g += 1;
    }
    assert(set@ =~= modes_of(flags));
    GizmoSettings { orientation, modes: set }
}

/// Brings the applied flags up to the requested ones. When the two are
/// equal nothing is derived and nothing is written; when they differ, in
/// one bit or in several, the new byte is stored and the settings are
/// derived from it as a whole.
pub fn reconcile(last: &mut PreviousCustomGizmoOptions, sync: &CustomGizmoOptions) -> (update:
    Option<GizmoSettings>)
    ensures
        final(last).gizmoFlags == sync.gizmoFlags,
        update is None <==> old(last).gizmoFlags == sync.gizmoFlags,
        update matches Some(settings) ==> settings.orientation == orientation_of(sync.gizmoFlags)
            && settings.modes@ == modes_of(sync.gizmoFlags),
{
    if last.gizmoFlags == sync.gizmoFlags {
        None
    } else {
        last.gizmoFlags = sync.gizmoFlags;
        Some(derive_settings(sync.gizmoFlags))
    }
}

} // verus!
