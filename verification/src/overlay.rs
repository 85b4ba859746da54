//! The diagnostics overlay: four visibility states that follow a shared
//! configuration, the nodes they own under a shared root, and the colour of
//! a displayed value.

use vstd::prelude::*;

verus! {

/// The configuration of the overlay: one flag for each of its four parts.
#[derive(Clone, Copy, Debug, PartialEq, Eq, Hash, Structural)]
pub struct FpsCounterOption {
    pub visible: bool,
    pub show_average: bool,
    pub show_frame_time: bool,
    pub show_average_frame_time: bool,
}

/// The four parts of the overlay, in their order under the root.
#[derive(Clone, Copy, Debug, PartialEq, Eq, Hash, Structural)]
pub enum OverlayKind {
    Counter,
    Average,
    FrameTime,
    AverageFrameTime,
}

/// Whether a part of the overlay is shown.
#[derive(Clone, Copy, Debug, PartialEq, Eq, Hash, Structural)]
pub enum OverlayVisibility {
    Hidden,
    Visible,
}

/// The diagnostic that a part displays.
#[derive(Clone, Copy, Debug, PartialEq, Eq, Hash, Structural)]
pub enum Measure {
    /// Frames per second.
    FrameRate,
    /// Milliseconds per frame.
    FrameTime,
}

/// Which value of a diagnostic a part displays.
#[derive(Clone, Copy, Debug, PartialEq, Eq, Hash, Structural)]
pub enum Statistic {
    Smoothed,
    Average,
}

/// How a displayed number is laid out: right-aligned in `width` characters,
/// with `decimals` digits after the point.
#[derive(Clone, Copy, Debug, PartialEq, Eq, Hash, Structural)]
pub struct NumberFormat {
    pub width: usize,
    pub decimals: usize,
}

/// The colour of a displayed value.
#[derive(Clone, Copy, Debug, PartialEq, Eq, Hash, Structural)]
pub enum OverlayColor {
    White,
    Red,
    Yellow,
    Lime,
    Aqua,
}

/// One part of the overlay: its state, the state asked for since the last
/// application, and whether its node exists.
#[derive(Clone, Copy, Debug, PartialEq, Eq, Hash, Structural)]
pub struct OverlaySlot {
    pub state: OverlayVisibility,
    pub pending: Option<OverlayVisibility>,
    pub node: bool,
}

/// The mathematical state of the overlay. The node of the counter stands for
/// the root together with the counter's own item.
#[derive(Clone, Copy, Debug, PartialEq, Eq, Hash, Structural)]
pub struct OverlayModel {
    pub counter: OverlaySlot,
    pub average: OverlaySlot,
    pub frame_time: OverlaySlot,
    pub average_frame_time: OverlaySlot,
}

/// What the caller does to the overlay's nodes after an application.
#[derive(Clone, Copy, Debug, PartialEq, Eq, Hash, Structural)]
pub enum OverlayCommand {
    /// Create the root.
    SpawnRoot,
    /// Create the node of a part and attach it under the root at the part's
    /// insertion index.
    SpawnNode(OverlayKind),
    /// Destroy the root with every node under it.
    DespawnRoot,
    /// Destroy the node of a part.
    DespawnNode(OverlayKind),
}

impl Default for FpsCounterOption {
    /// Every part is shown.
    fn default() -> (option: FpsCounterOption)
        ensures
            option == (FpsCounterOption {
                visible: true,
                show_average: true,
                show_frame_time: true,
                show_average_frame_time: true,
            }),
    {
        FpsCounterOption {
            visible: true,
            show_average: true,
            show_frame_time: true,
            show_average_frame_time: true,
        }
    }
}

impl FpsCounterOption {
    /// The flag of a part.
    pub open spec fn spec_shows(&self, kind: OverlayKind) -> bool {
        match kind {
            OverlayKind::Counter => self.visible,
            OverlayKind::Average => self.show_average,
            OverlayKind::FrameTime => self.show_frame_time,
            OverlayKind::AverageFrameTime => self.show_average_frame_time,
        }
    }

    /// The flag of a part.
    #[verifier::when_used_as_spec(spec_shows)]
    pub fn shows(&self, kind: OverlayKind) -> (flag: bool)
        ensures
            flag == self.spec_shows(kind),
    {
        match kind {
            OverlayKind::Counter => self.visible,
            OverlayKind::Average => self.show_average,
            OverlayKind::FrameTime => self.show_frame_time,
            OverlayKind::AverageFrameTime => self.show_average_frame_time,
        }
    }
}

impl Measure {
    /// The layout of a value of this diagnostic: a frame rate as a whole
    /// number in four characters, a frame time with two decimals in six.
    pub open spec fn spec_number_format(self) -> NumberFormat {
        match self {
            Measure::FrameRate => NumberFormat { width: 4, decimals: 0 },
            Measure::FrameTime => NumberFormat { width: 6, decimals: 2 },
        }
    }

    /// The layout of a value of this diagnostic.
    #[verifier::when_used_as_spec(spec_number_format)]
    pub fn number_format(self) -> (format: NumberFormat)
        ensures
            format == self.spec_number_format(),
    {
        match self {
            Measure::FrameRate => NumberFormat { width: 4, decimals: 0 },
            Measure::FrameTime => NumberFormat { width: 6, decimals: 2 },
        }
    }
}

impl OverlayVisibility {
    /// The visibility that a flag stands for.
    pub open spec fn spec_of_flag(flag: bool) -> OverlayVisibility {
        if flag {
            OverlayVisibility::Visible
        } else {
            OverlayVisibility::Hidden
        }
    }

    /// The visibility that a flag stands for.
    #[verifier::when_used_as_spec(spec_of_flag)]
    pub fn of_flag(flag: bool) -> (visibility: OverlayVisibility)
        ensures
            visibility == OverlayVisibility::spec_of_flag(flag),
    {
        if flag {
            OverlayVisibility::Visible
        } else {
            OverlayVisibility::Hidden
        }
    }
}

impl OverlayKind {
    /// The place of the part's node under the root.
    pub open spec fn spec_insertion_index(self) -> usize {
        match self {
            OverlayKind::Counter => 0,
            OverlayKind::Average => 1,
            OverlayKind::FrameTime => 2,
            OverlayKind::AverageFrameTime => 3,
        }
    }

    /// The place of the part's node under the root.
    #[verifier::when_used_as_spec(spec_insertion_index)]
    pub fn insertion_index(self) -> (index: usize)
        ensures
            index == self.spec_insertion_index(),
    {
        match self {
            OverlayKind::Counter => 0,
            OverlayKind::Average => 1,
            OverlayKind::FrameTime => 2,
            OverlayKind::AverageFrameTime => 3,
        }
    }

    /// The text in front of the part's value.
    pub open spec fn spec_label(self) -> Seq<char> {
        match self {
            OverlayKind::Counter => "FPS"@,
            OverlayKind::Average => "AVG FPS"@,
            OverlayKind::FrameTime => "FrameTime [ms]"@,
            OverlayKind::AverageFrameTime => "FrameTime AVG [ms]"@,
        }
    }

    /// The text in front of the part's value.
    pub fn label(self) -> (label: &'static str)
        ensures
            label@ == self.spec_label(),
    {
        match self {
            OverlayKind::Counter => "FPS",
            OverlayKind::Average => "AVG FPS",
            OverlayKind::FrameTime => "FrameTime [ms]",
            OverlayKind::AverageFrameTime => "FrameTime AVG [ms]",
        }
    }

    /// The diagnostic that the part displays.
    pub open spec fn spec_measure(self) -> Measure {
        match self {
            OverlayKind::Counter | OverlayKind::Average => Measure::FrameRate,
            OverlayKind::FrameTime | OverlayKind::AverageFrameTime => Measure::FrameTime,
        }
    }

    /// The diagnostic that the part displays.
    #[verifier::when_used_as_spec(spec_measure)]
    pub fn measure(self) -> (measure: Measure)
        ensures
            measure == self.spec_measure(),
    {
        match self {
            OverlayKind::Counter | OverlayKind::Average => Measure::FrameRate,
            OverlayKind::FrameTime | OverlayKind::AverageFrameTime => Measure::FrameTime,
        }
    }

    /// Which value of its diagnostic the part displays.
    pub open spec fn spec_statistic(self) -> Statistic {
        match self {
            OverlayKind::Counter | OverlayKind::FrameTime => Statistic::Smoothed,
            OverlayKind::Average | OverlayKind::AverageFrameTime => Statistic::Average,
        }
    }

    /// Which value of its diagnostic the part displays.
    #[verifier::when_used_as_spec(spec_statistic)]
    pub fn statistic(self) -> (statistic: Statistic)
        ensures
            statistic == self.spec_statistic(),
    {
        match self {
            OverlayKind::Counter | OverlayKind::FrameTime => Statistic::Smoothed,
            OverlayKind::Average | OverlayKind::AverageFrameTime => Statistic::Average,
        }
    }
}

/// The state that a part asks for when the configuration changed: the one
/// its flag stands for, and nothing when it is in that state already.
pub open spec fn visibility_request(flag: bool, current: OverlayVisibility) -> Option<
    OverlayVisibility,
> {
    if OverlayVisibility::of_flag(flag) == current {
        None
    } else {
        Some(OverlayVisibility::of_flag(flag))
    }
}

/// The colour tier of a frame rate, given as whole frames per second rounded
/// down: below 29 red, below 59 yellow, below 119 lime, aqua from there.
pub open spec fn spec_get_color(rate: i64) -> OverlayColor {
    if rate < 29 {
        OverlayColor::Red
    } else if rate < 59 {
        OverlayColor::Yellow
    } else if rate < 119 {
        OverlayColor::Lime
    } else {
        OverlayColor::Aqua
    }
}

/// The colour tier of a frame rate, given as whole frames per second rounded
/// down.
#[verifier::when_used_as_spec(spec_get_color)]
pub fn get_color(rate: i64) -> (color: OverlayColor)
    ensures
        color == spec_get_color(rate),
{
    if rate < 29 {
        OverlayColor::Red
    } else if rate < 59 {
        OverlayColor::Yellow
    } else if rate < 119 {
        OverlayColor::Lime
    } else {
        OverlayColor::Aqua
    }
}

/// The text displayed while no sample is available.
pub fn not_available_text() -> (text: &'static str)
    ensures
        text@ == " N/A"@,
{
    " N/A"
}

/// The colour of a displayed value: white while no sample is available, and
/// otherwise the tier of the sampled rate.
pub fn reading_color(sample: Option<i64>) -> (color: OverlayColor)
    ensures
        color == match sample {
            Some(rate) => get_color(rate),
            None => OverlayColor::White,
        },
{
    match sample {
        Some(rate) => get_color(rate),
        None => OverlayColor::White,
    }
}

impl OverlaySlot {
    /// The state that applying the slot's request leads to.
    pub open spec fn target(self) -> OverlayVisibility {
        match self.pending {
            Some(visibility) => visibility,
            None => self.state,
        }
    }

    /// The slot after its request is applied, under a root that exists or
    /// not: the part is in the state it asked for, and it has its node
    /// exactly when it is visible and the root exists.
    pub open spec fn settled(self, root: bool) -> OverlaySlot {
        OverlaySlot {
            state: self.target(),
            pending: None,
            node: self.target() == OverlayVisibility::Visible && root,
        }
    }
}

/// The slot of a part that starts with the given flag, under a root that
/// exists or not.
pub open spec fn starting_slot(flag: bool, root: bool) -> OverlaySlot {
    OverlaySlot { state: OverlayVisibility::of_flag(flag), pending: None, node: flag && root }
}

/// The creation of the node of a part, if the part has one.
pub open spec fn spawn_of(kind: OverlayKind, slot: OverlaySlot) -> Seq<OverlayCommand> {
    if slot.node {
        seq![OverlayCommand::SpawnNode(kind)]
    } else {
        Seq::empty()
    }
}

/// What is done to the node of a part other than the counter when its slot
/// goes from `before` to `after` under a root that stays: a node that comes
/// is created, one that goes is destroyed.
pub open spec fn node_change(kind: OverlayKind, before: OverlaySlot, after: OverlaySlot) -> Seq<
    OverlayCommand,
> {
    if after.node && !before.node {
        seq![OverlayCommand::SpawnNode(kind)]
    } else if before.node && !after.node {
        seq![OverlayCommand::DespawnNode(kind)]
    } else {
        Seq::empty()
    }
}

impl OverlayModel {
    /// The overlay at startup under a configuration: each part is in the
    /// state that its flag stands for, nothing is asked for, the root exists
    /// exactly when the counter is visible, and another part has its node
    /// exactly when it is visible and the root exists.
    pub open spec fn initial(config: FpsCounterOption) -> OverlayModel {
        OverlayModel {
            counter: starting_slot(config.visible, config.visible),
            average: starting_slot(config.show_average, config.visible),
            frame_time: starting_slot(config.show_frame_time, config.visible),
            average_frame_time: starting_slot(config.show_average_frame_time, config.visible),
        }
    }

    /// The slot of a part.
    pub open spec fn slot(self, kind: OverlayKind) -> OverlaySlot {
        match kind {
            OverlayKind::Counter => self.counter,
            OverlayKind::Average => self.average,
            OverlayKind::FrameTime => self.frame_time,
            OverlayKind::AverageFrameTime => self.average_frame_time,
        }
    }

    /// The overlay with the slot of a part replaced.
    pub open spec fn with_slot(self, kind: OverlayKind, slot: OverlaySlot) -> OverlayModel {
        match kind {
            OverlayKind::Counter => OverlayModel { counter: slot, ..self },
            OverlayKind::Average => OverlayModel { average: slot, ..self },
            OverlayKind::FrameTime => OverlayModel { frame_time: slot, ..self },
            OverlayKind::AverageFrameTime => OverlayModel { average_frame_time: slot, ..self },
        }
    }

    /// Whether the root exists.
    pub open spec fn root(self) -> bool {
        self.counter.node
    }

    /// The root exists exactly while the counter is visible, and every
    /// other part has its node exactly while it is visible and the root
    /// exists: a visible part owns its node from entering the visible state
    /// to leaving it, as far as there is a root to hold it.
    pub open spec fn wf(self) -> bool {
        forall|kind: OverlayKind|
            (#[trigger] self.slot(kind)).node == (self.slot(kind).state
                == OverlayVisibility::Visible && self.counter.state
                == OverlayVisibility::Visible)
    }

    /// The overlay after one part has compared its state with its flag: the
    /// part asks for the state that the flag stands for, and for nothing
    /// when it is in that state already.
    pub open spec fn request(self, kind: OverlayKind, flag: bool) -> OverlayModel {
        self.with_slot(
            kind,
            OverlaySlot {
                pending: visibility_request(flag, self.slot(kind).state),
                ..self.slot(kind)
            },
        )
    }

    /// The overlay after every part has compared its state with its flag,
    /// the counter first.
    pub open spec fn config_changed(self, config: FpsCounterOption) -> OverlayModel {
        self.request(OverlayKind::Counter, config.visible).request(
            OverlayKind::Average,
            config.show_average,
        ).request(OverlayKind::FrameTime, config.show_frame_time).request(
            OverlayKind::AverageFrameTime,
            config.show_average_frame_time,
        )
    }

    /// Whether the root exists once the requests are applied: exactly when
    /// the counter is then visible.
    pub open spec fn root_after(self) -> bool {
        self.counter.target() == OverlayVisibility::Visible
    }

    /// The overlay after every request is applied. Each part is in the state
    /// it asked for. The root exists exactly when the counter is visible,
    /// and every other part has its node exactly when it is visible and the
    /// root exists: with the root every node goes, and with a new root every
    /// visible part gets its node again.
    pub open spec fn apply(self) -> OverlayModel {
        OverlayModel {
            counter: self.counter.settled(self.root_after()),
            average: self.average.settled(self.root_after()),
            frame_time: self.frame_time.settled(self.root_after()),
            average_frame_time: self.average_frame_time.settled(self.root_after()),
        }
    }

    /// The creation of every node that exists, in the order under the root:
    /// the root with the counter's item, then the node of each other part
    /// that has one.
    pub open spec fn spawn_commands(self) -> Seq<OverlayCommand> {
        if self.root() {
            seq![OverlayCommand::SpawnRoot, OverlayCommand::SpawnNode(OverlayKind::Counter)]
                + spawn_of(OverlayKind::Average, self.average) + spawn_of(
                OverlayKind::FrameTime,
                self.frame_time,
            ) + spawn_of(OverlayKind::AverageFrameTime, self.average_frame_time)
        } else {
            Seq::empty()
        }
    }

    /// What the caller does to the nodes when every request is applied, in
    /// order. A root that comes is created with every node under it; a root
    /// that goes is destroyed, and every node with it; under a root that
    /// stays, the nodes that come and go are created and destroyed in the
    /// order of their parts.
    pub open spec fn commands(self) -> Seq<OverlayCommand> {
        let after = self.apply();
        if !after.root() {
            if self.root() {
                seq![OverlayCommand::DespawnRoot]
            } else {
                Seq::empty()
            }
        } else if !self.root() {
            after.spawn_commands()
        } else {
            node_change(OverlayKind::Average, self.average, after.average) + node_change(
                OverlayKind::FrameTime,
                self.frame_time,
                after.frame_time,
            ) + node_change(
                OverlayKind::AverageFrameTime,
                self.average_frame_time,
                after.average_frame_time,
            )
        }
    }
}

/// The overlay's state machine.
#[derive(Clone, Copy, Debug)]
pub struct OverlayMachine {
    model: OverlayModel,
}

impl View for OverlayMachine {
    type V = OverlayModel;

    closed spec fn view(&self) -> OverlayModel {
        self.model
    }
}

impl OverlayMachine {
    /// The invariant of the overlay, which every operation keeps.
    pub open spec fn wf(&self) -> bool {
        self@.wf()
    }

    /// The overlay at startup under a configuration: every part starts in
    /// the state that its flag stands for. The caller creates the nodes that
    /// exist then, as `startup_commands` lists them for the same
    /// configuration.
    pub fn new(config: &FpsCounterOption) -> (machine: OverlayMachine)
        ensures
            machine.wf(),
            machine@ == OverlayModel::initial(*config),
    {
        let root = config.visible;
        OverlayMachine {
            model: OverlayModel {
                counter: starting(config.visible, root),
                average: starting(config.show_average, root),
                frame_time: starting(config.show_frame_time, root),
                average_frame_time: starting(config.show_average_frame_time, root),
            },
        }
    }

    /// The slot of a part.
    pub fn slot(&self, kind: OverlayKind) -> (slot: OverlaySlot)
        ensures
            slot == self@.slot(kind),
    {
        match kind {
            OverlayKind::Counter => self.model.counter,
            OverlayKind::Average => self.model.average,
            OverlayKind::FrameTime => self.model.frame_time,
            OverlayKind::AverageFrameTime => self.model.average_frame_time,
        }
    }

    /// The state of a part.
    pub fn state(&self, kind: OverlayKind) -> (state: OverlayVisibility)
        ensures
            state == self@.slot(kind).state,
    {
        self.slot(kind).state
    }

    /// Whether the displayed value of a part is refreshed in a tick: while
    /// its node exists, which is while the part and the counter are visible.
    pub fn refreshes(&self, kind: OverlayKind) -> (refreshes: bool)
        requires
            self.wf(),
        ensures
            refreshes == self@.slot(kind).node,
            refreshes == (self@.slot(kind).state == OverlayVisibility::Visible
                && self@.counter.state == OverlayVisibility::Visible),
    {
        self.slot(kind).node
    }

    /// Replaces the slot of a part.
    fn set_slot(&mut self, kind: OverlayKind, slot: OverlaySlot)
        ensures
            final(self)@ == old(self)@.with_slot(kind, slot),
    {
        match kind {
            OverlayKind::Counter => {
                self.model.counter = slot;
            },
            OverlayKind::Average => {
                self.model.average = slot;
            },
            OverlayKind::FrameTime => {
                self.model.frame_time = slot;
            },
            OverlayKind::AverageFrameTime => {
                self.model.average_frame_time = slot;
            },
        }
    }

    /// One part compares its state with its flag.
    fn request(&mut self, kind: OverlayKind, flag: bool)
        requires
            old(self).wf(),
        ensures
            final(self).wf(),
            final(self)@ == old(self)@.request(kind, flag),
    {
        let slot = self.slot(kind);
        let wanted = OverlayVisibility::of_flag(flag);
        let pending = if wanted != slot.state {
            Some(wanted)
        } else {
            None
        };
        self.set_slot(kind, OverlaySlot { pending, ..slot });
        proof {
            lemma_request_keeps_invariant(old(self)@, kind, flag);
        }
    }

    /// The configuration changed: every part compares its state with its
    /// flag and asks for the other state where they differ, the counter
    /// first. Nothing changes before the next application.
    pub fn on_config_changed(&mut self, config: &FpsCounterOption)
        requires
            old(self).wf(),
        ensures
            final(self).wf(),
            final(self)@ == old(self)@.config_changed(*config),
    {
        on_change_visibility(config, self);
        on_change_average_visibility(config, self);
        on_change_frame_time_visibility(config, self);
        on_change_average_frame_time_visibility(config, self);
    }

    /// Applies what was asked for, which is done between ticks, and lists
    /// what the caller does to the nodes, in order.
    pub fn apply_transitions(&mut self) -> (commands: Vec<OverlayCommand>)
        requires
            old(self).wf(),
        ensures
            final(self).wf(),
            final(self)@ == old(self)@.apply(),
            commands@ == old(self)@.commands(),
    {
        let before = self.model;
        let root = match before.counter.pending {
            Some(visibility) => visibility == OverlayVisibility::Visible,
            None => before.counter.state == OverlayVisibility::Visible,
        };
        let after = OverlayModel {
            counter: settle(before.counter, root),
            average: settle(before.average, root),
            frame_time: settle(before.frame_time, root),
            average_frame_time: settle(before.average_frame_time, root),
        };
        self.model = after;
        let mut commands: Vec<OverlayCommand> = Vec::new();
        if !after.counter.node {
            if before.counter.node {
                commands.push(OverlayCommand::DespawnRoot);
            }
        } else if !before.counter.node {
            commands.push(OverlayCommand::SpawnRoot);
            commands.push(OverlayCommand::SpawnNode(OverlayKind::Counter));
            push_spawn(&mut commands, OverlayKind::Average, after.average);
            push_spawn(&mut commands, OverlayKind::FrameTime, after.frame_time);
            push_spawn(&mut commands, OverlayKind::AverageFrameTime, after.average_frame_time);
        } else {
            push_change(&mut commands, OverlayKind::Average, before.average, after.average);
            push_change(&mut commands, OverlayKind::FrameTime, before.frame_time, after.frame_time);
            push_change(
                &mut commands,
                OverlayKind::AverageFrameTime,
                before.average_frame_time,
                after.average_frame_time,
            );
        }
        proof {
            law_visible_part_owns_its_node(old(self)@, OverlayKind::Counter);
            assert(commands@ =~= old(self)@.commands());
        }
        commands
    }
}

/// The slot of a part that starts with the given flag, under a root that
/// exists or not.
fn starting(flag: bool, root: bool) -> (slot: OverlaySlot)
    ensures
        slot == starting_slot(flag, root),
{
    OverlaySlot { state: OverlayVisibility::of_flag(flag), pending: None, node: flag && root }
}

/// The slot after its request is applied, under a root that exists or not.
fn settle(slot: OverlaySlot, root: bool) -> (settled: OverlaySlot)
    ensures
        settled == slot.settled(root),
{
    let state = match slot.pending {
        Some(visibility) => visibility,
        None => slot.state,
    };
    OverlaySlot { state, pending: None, node: state == OverlayVisibility::Visible && root }
}

/// Lists the creation of the node of a part, if the part has one.
fn push_spawn(commands: &mut Vec<OverlayCommand>, kind: OverlayKind, slot: OverlaySlot)
    ensures
        final(commands)@ == old(commands)@ + spawn_of(kind, slot),
{
    if slot.node {
        commands.push(OverlayCommand::SpawnNode(kind));
    }
    assert(commands@ =~= old(commands)@ + spawn_of(kind, slot));
}

/// Lists what is done to the node of a part under a root that stays.
fn push_change(
    commands: &mut Vec<OverlayCommand>,
    kind: OverlayKind,
    before: OverlaySlot,
    after: OverlaySlot,
)
    ensures
        final(commands)@ == old(commands)@ + node_change(kind, before, after),
{
    if after.node && !before.node {
        commands.push(OverlayCommand::SpawnNode(kind));
    } else if before.node && !after.node {
        commands.push(OverlayCommand::DespawnNode(kind));
    }
    assert(commands@ =~= old(commands)@ + node_change(kind, before, after));
}

/// What the caller does to the nodes at startup under a configuration: the
/// root with the counter's item and the node of every other part whose flag
/// is set, in the order under the root, if the counter is shown; nothing
/// otherwise.
pub fn startup_commands(config: &FpsCounterOption) -> (commands: Vec<OverlayCommand>)
    ensures
        commands@ == OverlayModel::initial(*config).spawn_commands(),
{
    let start = OverlayMachine::new(config).model;
    let mut commands: Vec<OverlayCommand> = Vec::new();
    if start.counter.node {
        commands.push(OverlayCommand::SpawnRoot);
        commands.push(OverlayCommand::SpawnNode(OverlayKind::Counter));
        push_spawn(&mut commands, OverlayKind::Average, start.average);
        push_spawn(&mut commands, OverlayKind::FrameTime, start.frame_time);
        push_spawn(&mut commands, OverlayKind::AverageFrameTime, start.average_frame_time);
    }
    assert(commands@ =~= OverlayModel::initial(*config).spawn_commands());
    commands
}

/// The counter compares its state with the `visible` flag.
pub fn on_change_visibility(config: &FpsCounterOption, machine: &mut OverlayMachine)
    requires
        old(machine).wf(),
    ensures
        final(machine).wf(),
        final(machine)@ == old(machine)@.request(OverlayKind::Counter, config.visible),
{
    machine.request(OverlayKind::Counter, config.visible);
}

/// The average compares its state with the `show_average` flag.
pub fn on_change_average_visibility(config: &FpsCounterOption, machine: &mut OverlayMachine)
    requires
        old(machine).wf(),
    ensures
        final(machine).wf(),
        final(machine)@ == old(machine)@.request(OverlayKind::Average, config.show_average),
{
    machine.request(OverlayKind::Average, config.show_average);
}

/// The frame time compares its state with the `show_frame_time` flag.
pub fn on_change_frame_time_visibility(config: &FpsCounterOption, machine: &mut OverlayMachine)
    requires
        old(machine).wf(),
    ensures
        final(machine).wf(),
        final(machine)@ == old(machine)@.request(OverlayKind::FrameTime, config.show_frame_time),
{
    machine.request(OverlayKind::FrameTime, config.show_frame_time);
}

/// The average frame time compares its state with the
/// `show_average_frame_time` flag.
pub fn on_change_average_frame_time_visibility(
    config: &FpsCounterOption,
    machine: &mut OverlayMachine,
)
    requires
        old(machine).wf(),
    ensures
        final(machine).wf(),
        final(machine)@ == old(machine)@.request(
            OverlayKind::AverageFrameTime,
            config.show_average_frame_time,
        ),
{
    machine.request(OverlayKind::AverageFrameTime, config.show_average_frame_time);
}

/// A request keeps the invariant: it touches no state and no node.
proof fn lemma_request_keeps_invariant(overlay: OverlayModel, kind: OverlayKind, flag: bool)
    requires
        overlay.wf(),
    ensures
        overlay.request(kind, flag).wf(),
{
    let after = overlay.request(kind, flag);
    assert forall|other: OverlayKind|
        (#[trigger] after.slot(other)).node == (after.slot(other).state
            == OverlayVisibility::Visible && after.counter.state
            == OverlayVisibility::Visible) by {
        assert(overlay.slot(other).node == (overlay.slot(other).state
            == OverlayVisibility::Visible && overlay.counter.state
            == OverlayVisibility::Visible));
        assert(overlay.slot(OverlayKind::Counter).node == (overlay.counter.state
            == OverlayVisibility::Visible));
    }
}

/// A request touches the slot of its own part alone, and there only what is
/// asked for.
proof fn lemma_request_frame(overlay: OverlayModel, kind: OverlayKind, flag: bool, other: OverlayKind)
    ensures
        other != kind ==> overlay.request(kind, flag).slot(other) == overlay.slot(other),
        overlay.request(kind, flag).slot(kind).state == overlay.slot(kind).state,
        overlay.request(kind, flag).slot(kind).node == overlay.slot(kind).node,
        overlay.request(kind, flag).slot(kind).pending == visibility_request(
            flag,
            overlay.slot(kind).state,
        ),
{
}

/// A change of the configuration does to each part what the request of that
/// part alone does.
proof fn lemma_config_changed_slot(
    overlay: OverlayModel,
    config: FpsCounterOption,
    kind: OverlayKind,
)
    ensures
        overlay.config_changed(config).slot(kind) == overlay.request(
            kind,
            config.shows(kind),
        ).slot(kind),
{
    let first = overlay.request(OverlayKind::Counter, config.visible);
    let second = first.request(OverlayKind::Average, config.show_average);
    let third = second.request(OverlayKind::FrameTime, config.show_frame_time);
    lemma_request_frame(overlay, OverlayKind::Counter, config.visible, kind);
    lemma_request_frame(first, OverlayKind::Average, config.show_average, kind);
    lemma_request_frame(second, OverlayKind::FrameTime, config.show_frame_time, kind);
    lemma_request_frame(
        third,
        OverlayKind::AverageFrameTime,
        config.show_average_frame_time,
        kind,
    );
    lemma_request_frame(overlay, kind, config.shows(kind), kind);
}

/// After the configuration changed and the requests were applied, every part
/// is visible exactly when its flag is set, whatever its state was before.
pub proof fn law_overlay_follows_config(
    overlay: OverlayModel,
    config: FpsCounterOption,
    kind: OverlayKind,
)
    ensures
        overlay.config_changed(config).apply().slot(kind).state == OverlayVisibility::of_flag(
            config.shows(kind),
        ),
        overlay.config_changed(config).apply().slot(kind).pending is None,
        overlay.config_changed(config).apply().slot(kind).node == (config.shows(kind)
            && config.visible),
{
    lemma_config_changed_slot(overlay, config, kind);
    lemma_config_changed_slot(overlay, config, OverlayKind::Counter);
    lemma_request_frame(overlay, kind, config.shows(kind), kind);
    lemma_request_frame(overlay, OverlayKind::Counter, config.visible, OverlayKind::Counter);
}

/// At startup every part is in the state that its flag stands for, with
/// nothing asked for, and the nodes that exist are those of the visible
/// parts under a visible counter. That is also what reading the
/// configuration and applying leads to from any state.
pub proof fn law_overlay_starts_from_config(config: FpsCounterOption, kind: OverlayKind)
    ensures
        OverlayModel::initial(config).wf(),
        OverlayModel::initial(config).slot(kind).state == OverlayVisibility::of_flag(
            config.shows(kind),
        ),
        OverlayModel::initial(config).slot(kind).pending is None,
        OverlayModel::initial(config).slot(kind).node == (config.shows(kind) && config.visible),
        forall|overlay: OverlayModel|
            (#[trigger] overlay.config_changed(config).apply()) == OverlayModel::initial(config),
{
    assert forall|overlay: OverlayModel|
        (#[trigger] overlay.config_changed(config).apply()) == OverlayModel::initial(
            config,
        ) by {
        law_overlay_follows_config(overlay, config, OverlayKind::Counter);
        law_overlay_follows_config(overlay, config, OverlayKind::Average);
        law_overlay_follows_config(overlay, config, OverlayKind::FrameTime);
        law_overlay_follows_config(overlay, config, OverlayKind::AverageFrameTime);
    }
}

/// While the flag of a part matches its state, a change of the configuration
/// asks nothing of that part, and applying moves it nowhere: only a part
/// whose flag differs from its state makes a transition.
pub proof fn law_matching_flag_no_transition(
    overlay: OverlayModel,
    config: FpsCounterOption,
    kind: OverlayKind,
)
    requires
        overlay.slot(kind).state == OverlayVisibility::of_flag(config.shows(kind)),
    ensures
        overlay.config_changed(config).slot(kind).pending is None,
        overlay.config_changed(config).slot(kind).state == overlay.slot(kind).state,
        overlay.config_changed(config).slot(kind).node == overlay.slot(kind).node,
        overlay.config_changed(config).apply().slot(kind).state == overlay.slot(kind).state,
{
    lemma_config_changed_slot(overlay, config, kind);
    lemma_request_frame(overlay, kind, config.shows(kind), kind);
    law_overlay_follows_config(overlay, config, kind);
}

/// A visible part owns its node: after every application the root exists
/// exactly when the counter is visible, and every part has its node exactly
/// when it and the counter are visible. So while the counter is hidden
/// neither the root nor any node exists, and once it is visible again every
/// visible part has its node.
pub proof fn law_visible_part_owns_its_node(overlay: OverlayModel, kind: OverlayKind)
    ensures
        overlay.apply().wf(),
        overlay.apply().slot(kind).node == (overlay.apply().slot(kind).state
            == OverlayVisibility::Visible && overlay.apply().counter.state
            == OverlayVisibility::Visible),
        overlay.apply().counter.state == OverlayVisibility::Hidden ==> !overlay.apply().root()
            && !overlay.apply().slot(kind).node,
{
}

/// When the counter becomes visible, the root is created with the counter's
/// item first and then the node of every other visible part, in the order
/// under the root; when it becomes hidden, the root alone is destroyed, and
/// every node goes with it.
pub proof fn law_root_comes_and_goes_with_its_nodes(overlay: OverlayModel)
    requires
        overlay.wf(),
    ensures
        !overlay.root() && overlay.apply().root() ==> overlay.commands()
            == overlay.apply().spawn_commands(),
        overlay.root() && !overlay.apply().root() ==> overlay.commands() == seq![
            OverlayCommand::DespawnRoot,
        ],
        !overlay.root() && !overlay.apply().root() ==> overlay.commands()
            == Seq::<OverlayCommand>::empty(),
{
}

/// The invariant holds at startup and is kept by a change of the
/// configuration and by an application.
pub proof fn law_overlay_keeps_invariant(overlay: OverlayModel, config: FpsCounterOption)
    requires
        overlay.wf(),
    ensures
        OverlayModel::initial(config).wf(),
        overlay.config_changed(config).wf(),
        overlay.apply().wf(),
{
    let first = overlay.request(OverlayKind::Counter, config.visible);
    lemma_request_keeps_invariant(overlay, OverlayKind::Counter, config.visible);
    let second = first.request(OverlayKind::Average, config.show_average);
    lemma_request_keeps_invariant(first, OverlayKind::Average, config.show_average);
    let third = second.request(OverlayKind::FrameTime, config.show_frame_time);
    lemma_request_keeps_invariant(second, OverlayKind::FrameTime, config.show_frame_time);
    lemma_request_keeps_invariant(
        third,
        OverlayKind::AverageFrameTime,
        config.show_average_frame_time,
    );
}

} // verus!
