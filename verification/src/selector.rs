use vstd::prelude::*;

use crate::devices::{device_label, spec_device_label, FlutterDevice};

verus! {

/// The Flutter device a debug launch with no explicit `deviceId` should use.
/// Set by [`FlutterDeviceSelector`], read when a debug scenario is resolved, so
/// that a selection made in the status bar skips the launch-time device picker.
pub struct SelectedFlutterDevice(pub String);

/// What a refresh asks of the caller.
#[derive(Debug, Clone, Copy, PartialEq, Eq)]
pub enum RefreshAction {
    /// The Flutter worktree is the one seen last time: nothing to do.
    Unchanged,
    /// The project has no Flutter worktree any more: redraw the hidden item.
    Cleared,
    /// A Flutter worktree was found: list its devices, then report them.
    ListDevices,
}

/// The status-bar item's state. `listing` is the worktree whose device listing
/// was started last and has not reported yet; starting a listing abandons the
/// one before it.
pub struct SelectorState {
    pub is_flutter_project: bool,
    pub devices: Seq<FlutterDevice>,
    pub flutter_worktree_id: Option<usize>,
    pub listing: Option<usize>,
}

impl SelectorState {
    /// The action a refresh takes on finding `worktree_id` as the Flutter worktree.
    pub open spec fn refresh_action(self, worktree_id: Option<usize>) -> RefreshAction {
        if worktree_id == self.flutter_worktree_id {
            RefreshAction::Unchanged
        } else if worktree_id is None {
            RefreshAction::Cleared
        } else {
            RefreshAction::ListDevices
        }
    }

    /// The state after a refresh that found `worktree_id` as the Flutter worktree.
    pub open spec fn after_refresh(self, worktree_id: Option<usize>) -> SelectorState {
        if worktree_id == self.flutter_worktree_id {
            self
        } else if worktree_id is None {
            SelectorState {
                is_flutter_project: false,
                devices: Seq::empty(),
                flutter_worktree_id: None,
                ..self
            }
        } else {
            SelectorState {
                is_flutter_project: true,
                flutter_worktree_id: worktree_id,
                listing: worktree_id,
                ..self
            }
        }
    }

    /// A listing for `worktree_id` is the one still awaited.
    pub open spec fn awaits_listing(self, worktree_id: usize) -> bool {
        self.listing == Some(worktree_id)
    }

    /// The state after the listing for `worktree_id` reports: where it is the one
    /// awaited, its devices replace the old ones; any other listing is ignored.
    pub open spec fn after_listing(self, worktree_id: usize, listed: Option<Seq<FlutterDevice>>) -> SelectorState {
        if self.awaits_listing(worktree_id) {
            SelectorState { devices: Self::listed_devices(listed), listing: None, ..self }
        } else {
            self
        }
    }

    /// The devices kept from a listing; a listing that failed counts as no devices.
    pub open spec fn listed_devices(listed: Option<Seq<FlutterDevice>>) -> Seq<FlutterDevice> {
        match listed {
            Some(devices) => devices,
            None => Seq::empty(),
        }
    }

    /// The device to select after a listing: the first listed device, where
    /// there is one and nothing is selected yet.
    pub open spec fn selection_after_listing(
        listed: Option<Seq<FlutterDevice>>,
        already_selected: bool,
    ) -> Option<Seq<char>> {
        let devices = Self::listed_devices(listed);
        if devices.len() > 0 && !already_selected {
            Some(devices[0].id@)
        } else {
            None
        }
    }

    /// The item is shown only for a Flutter project with at least one device.
    pub open spec fn visible(self) -> bool {
        self.is_flutter_project && self.devices.len() > 0
    }
}

/// `i` is the position of the first worktree that has a `pubspec.yaml` at its root.
pub open spec fn is_first_flutter_worktree(worktrees: Seq<(usize, bool)>, i: int) -> bool {
    &&& 0 <= i < worktrees.len()
    &&& worktrees[i].1
    &&& forall|j: int| 0 <= j < i ==> !(#[trigger] worktrees[j]).1
}

/// Returns the first worktree with a `pubspec.yaml` at its root, if any. Each
/// worktree is given as its id and whether it has `pubspec.yaml` at its root.
pub fn flutter_worktree(worktrees: &[(usize, bool)]) -> (r: Option<usize>)
    ensures
        r is None <==> forall|j: int| 0 <= j < worktrees@.len() ==> !(#[trigger] worktrees@[j]).1,
        r matches Some(id) ==> exists|i: int|
            is_first_flutter_worktree(worktrees@, i) && worktrees@[i].0 == id,
        r matches Some(id) ==> exists|i: int|
            0 <= i < worktrees@.len() && (#[trigger] worktrees@[i]).1 && worktrees@[i].0 == id
                && forall|j: int| 0 <= j < i ==> !worktrees@[j].1,
{
    let mut i: usize = 0;
    while i < worktrees.len()
        invariant
            i <= worktrees@.len(),
            forall|j: int| 0 <= j < i ==> !(#[trigger] worktrees@[j]).1,
        decreases worktrees@.len() - i,
    {
        if worktrees[i].1 {
            assert(is_first_flutter_worktree(worktrees@, i as int));
            return Some(worktrees[i].0);
        }
        i += 1;
    }
    None
}

/// The status-bar button: its label and its tooltip.
pub struct SelectorButton {
    pub label: String,
    pub tooltip: String,
}

/// Status-bar item showing the currently selected Flutter device. Hidden
/// unless the open project has a `pubspec.yaml` at a worktree root and
/// `flutter devices` reports at least one device.
pub struct FlutterDeviceSelector {
    is_flutter_project: bool,
    devices: Vec<FlutterDevice>,
    flutter_worktree_id: Option<usize>,
    listing: Option<usize>,
}

impl View for FlutterDeviceSelector {
    type V = SelectorState;

    closed spec fn view(&self) -> SelectorState {
        SelectorState {
            is_flutter_project: self.is_flutter_project,
            devices: self.devices@,
            flutter_worktree_id: self.flutter_worktree_id,
            listing: self.listing,
        }
    }
}

impl FlutterDeviceSelector {
    /// A selector that has not looked at the project yet.
    pub fn new() -> (r: Self)
        ensures
            r@ == (SelectorState {
                is_flutter_project: false,
                devices: Seq::empty(),
                flutter_worktree_id: None,
                listing: None,
            }),
    {
        FlutterDeviceSelector {
            is_flutter_project: false,
            devices: Vec::new(),
            flutter_worktree_id: None,
            listing: None,
        }
    }

    /// Re-detects whether the project is a Flutter project, given the id of the
    /// first worktree with a `pubspec.yaml` at its root. A no-op if that worktree
    /// (or lack thereof) is unchanged since the last call, so that repeated calls
    /// do not list devices again.
    pub fn refresh(&mut self, flutter_worktree_id: Option<usize>) -> (r: RefreshAction)
        ensures
            r == old(self)@.refresh_action(flutter_worktree_id),
            final(self)@ == old(self)@.after_refresh(flutter_worktree_id),
    {
        if flutter_worktree_id == self.flutter_worktree_id {
            return RefreshAction::Unchanged;
        }
        self.flutter_worktree_id = flutter_worktree_id;
        if flutter_worktree_id.is_none() {
            self.is_flutter_project = false;
            self.devices = Vec::new();
            return RefreshAction::Cleared;
        }
        self.is_flutter_project = true;
        self.listing = flutter_worktree_id;
        RefreshAction::ListDevices
    }

    /// Takes the outcome of listing the devices of `worktree_id` (`None` where
    /// listing failed) and returns the device to select, where nothing is selected
    /// yet. A listing other than the one awaited (one abandoned by a later
    /// refresh, or one that already reported) changes nothing and selects nothing.
    pub fn devices_listed(
        &mut self,
        worktree_id: usize,
        listed: Option<Vec<FlutterDevice>>,
        selected: Option<&SelectedFlutterDevice>,
    ) -> (r: Option<SelectedFlutterDevice>)
        ensures
            final(self)@ == old(self)@.after_listing(
                worktree_id,
                match listed {
                    Some(d) => Some(d@),
                    None => None,
                },
            ),
            !old(self)@.awaits_listing(worktree_id) ==> r is None,
            old(self)@.awaits_listing(worktree_id) ==> (r is Some
                <==> SelectorState::selection_after_listing(
                match listed {
                    Some(d) => Some(d@),
                    None => None,
                },
                selected is Some,
            ) is Some),
            r matches Some(device) ==> SelectorState::selection_after_listing(
                match listed {
                    Some(d) => Some(d@),
                    None => None,
                },
                selected is Some,
            ) == Some(device.0@),
    {
        if self.listing != Some(worktree_id) {
            return None;
        }
        let devices = match listed {
            Some(devices) => devices,
            None => Vec::new(),
        };
        let selection = if devices.len() > 0 && selected.is_none() {
            Some(SelectedFlutterDevice(devices[0].id.clone()))
        } else {
            None
        };
        self.devices = devices;
        self.listing = None;
        selection
    }

    /// Whether the status-bar item is shown.
    pub fn is_visible(&self) -> (r: bool)
        ensures
            r == self@.visible(),
    {
        self.is_flutter_project && self.devices.len() > 0
    }

    /// The label of the status-bar button for the current selection.
    pub fn label(&self, selected: Option<&SelectedFlutterDevice>) -> (r: String)
        ensures
            r@ == spec_device_label(
                self@.devices,
                match selected {
                    Some(device) => Some(device.0@),
                    None => None,
                },
            ),
    {
        match selected {
            Some(device) => device_label(self.devices.as_slice(), Some(device.0.as_str())),
            None => device_label(self.devices.as_slice(), None),
        }
    }

    /// The status-bar button for the current selection: none where the item is
    /// hidden; otherwise the selection's label, with the tooltip
    /// `Select Flutter Device`.
    pub fn button(&self, selected: Option<&SelectedFlutterDevice>) -> (r: Option<SelectorButton>)
        ensures
            r is Some <==> self@.visible(),
            r matches Some(button) ==> button.label@ == spec_device_label(
                self@.devices,
                match selected {
                    Some(device) => Some(device.0@),
                    None => None,
                },
            ) && button.tooltip@ == "Select Flutter Device"@,
    {
        if !self.is_visible() {
            return None;
        }
        Some(
            SelectorButton {
                label: self.label(selected),
                tooltip: String::from_str("Select Flutter Device"),
            },
        )
    }

    /// The entries of the device menu, in listing order: each shows a device's
    /// name and selects its id.
    pub fn menu_entries(&self) -> (r: Vec<(String, SelectedFlutterDevice)>)
        ensures
            r@.len() == self@.devices.len(),
            forall|i: int|
                0 <= i < r@.len() ==> (#[trigger] r@[i]).0@ == self@.devices[i].name@ && r@[i].1.0@
                    == self@.devices[i].id@,
    {
        let mut entries: Vec<(String, SelectedFlutterDevice)> = Vec::new();
        let mut i: usize = 0;
        while i < self.devices.len()
            invariant
                i <= self.devices@.len(),
                entries@.len() == i,
                forall|j: int|
                    0 <= j < i ==> (#[trigger] entries@[j]).0@ == self.devices@[j].name@
                        && entries@[j].1.0@ == self.devices@[j].id@,
            decreases self.devices@.len() - i,
        {
            let device = &self.devices[i];
            entries.push((device.name.clone(), SelectedFlutterDevice(device.id.clone())));
            i += 1;
        }
        entries
    }
}

/// A refresh that finds the same Flutter worktree again does nothing: it asks
/// for no work and leaves the state as it was.
pub proof fn lemma_refresh_is_idempotent(state: SelectorState, worktree_id: Option<usize>)
    ensures
        state.after_refresh(worktree_id).refresh_action(worktree_id) == RefreshAction::Unchanged,
        state.after_refresh(worktree_id).after_refresh(worktree_id) == state.after_refresh(
            worktree_id,
        ),
{
}

/// Losing the Flutter worktree hides the item.
pub proof fn lemma_cleared_is_hidden(state: SelectorState, worktree_id: Option<usize>)
    requires
        state.refresh_action(worktree_id) == RefreshAction::Cleared,
    ensures
        !state.after_refresh(worktree_id).visible(),
{
}

/// A listing abandoned by a later refresh to another worktree changes nothing
/// when it reports.
pub proof fn lemma_abandoned_listing_is_ignored(
    state: SelectorState,
    old_worktree: usize,
    new_worktree: usize,
    listed: Option<Seq<FlutterDevice>>,
)
    requires
        old_worktree != new_worktree,
        state.refresh_action(Some(new_worktree)) == RefreshAction::ListDevices,
    ensures
        state.after_refresh(Some(new_worktree)).after_listing(old_worktree, listed)
            == state.after_refresh(Some(new_worktree)),
{
}

/// A listing never replaces a selection the user already made.
pub proof fn lemma_listing_keeps_selection(listed: Option<Seq<FlutterDevice>>)
    ensures
        SelectorState::selection_after_listing(listed, true) is None,
{
}

/// When the awaited listing reports, the stored devices become exactly the listed
/// ones, or none at all where listing failed, whatever was stored before; a
/// failed listing hides the item. Only the awaited listing is consumed.
pub proof fn lemma_listing_replaces_devices(
    state: SelectorState,
    worktree_id: usize,
    devices: Seq<FlutterDevice>,
)
    requires
        state.listing == Some(worktree_id),
    ensures
        state.after_listing(worktree_id, Some(devices)).devices == devices,
        state.after_listing(worktree_id, None).devices.len() == 0,
        !state.after_listing(worktree_id, None).visible(),
        state.after_listing(worktree_id, Some(devices)).listing is None,
        state.after_listing(worktree_id, Some(devices)).is_flutter_project
            == state.is_flutter_project,
        state.after_listing(worktree_id, Some(devices)).flutter_worktree_id
            == state.flutter_worktree_id,
{
}

/// A report for any worktree but the awaited one changes nothing.
pub proof fn lemma_unawaited_listing_changes_nothing(
    state: SelectorState,
    worktree_id: usize,
    listed: Option<Seq<FlutterDevice>>,
)
    requires
        state.listing != Some(worktree_id),
    ensures
        state.after_listing(worktree_id, listed) == state,
{
}

/// A listing selects its first device exactly where it listed some device and
/// nothing was selected yet.
pub proof fn lemma_listing_selects_first_device(listed: Option<Seq<FlutterDevice>>, already_selected: bool)
    ensures
        (listed matches Some(devices) && devices.len() > 0 && !already_selected)
            ==> SelectorState::selection_after_listing(listed, already_selected) == Some(
            listed->0[0].id@,
        ),
        !(listed matches Some(devices) && devices.len() > 0 && !already_selected)
            ==> SelectorState::selection_after_listing(listed, already_selected) is None,
{
}

/// Finding a new Flutter worktree marks the project as a Flutter project, records
/// the worktree, awaits its listing and keeps the devices; losing the worktree
/// clears the devices; finding the same worktree changes nothing.
pub proof fn lemma_refresh_outcomes(state: SelectorState, worktree_id: Option<usize>)
    ensures
        worktree_id == state.flutter_worktree_id ==> state.after_refresh(worktree_id) == state
            && state.refresh_action(worktree_id) == RefreshAction::Unchanged,
        (worktree_id != state.flutter_worktree_id && worktree_id is Some) ==> {
            let next = state.after_refresh(worktree_id);
            &&& state.refresh_action(worktree_id) == RefreshAction::ListDevices
            &&& next.is_flutter_project
            &&& next.flutter_worktree_id == worktree_id
            &&& next.listing == worktree_id
            &&& next.devices == state.devices
        },
        (worktree_id != state.flutter_worktree_id && worktree_id is None) ==> {
            let next = state.after_refresh(worktree_id);
            &&& state.refresh_action(worktree_id) == RefreshAction::Cleared
            &&& !next.is_flutter_project
            &&& next.flutter_worktree_id is None
            &&& next.devices.len() == 0
            &&& next.listing == state.listing
        },
{
}

/// The item is shown exactly for a Flutter project with at least one device.
pub proof fn lemma_visible_needs_project_and_device(state: SelectorState)
    ensures
        state.visible() <==> (state.is_flutter_project && state.devices.len() > 0),
{
}

} // verus!
