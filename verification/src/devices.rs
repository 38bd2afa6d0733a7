use vstd::prelude::*;

verus! {

/// A device reported by `flutter devices --machine`: its id, which `flutter`
/// takes after `-d`, and its human-readable name.
#[derive(Debug, PartialEq, Eq)]
pub struct FlutterDevice {
    pub id: String,
    pub name: String,
}

/// `i` is the position of the first device with the id `id`.
pub open spec fn is_first_device(devices: Seq<FlutterDevice>, id: Seq<char>, i: int) -> bool {
    &&& 0 <= i < devices.len()
    &&& devices[i].id@ == id
    &&& forall|j: int| 0 <= j < i ==> devices[j].id@ != id
}

/// The position of the first device with the id `id`, if any device has it.
pub open spec fn device_index(devices: Seq<FlutterDevice>, id: Seq<char>) -> Option<int> {
    if exists|i: int| is_first_device(devices, id, i) {
        Some(choose|i: int| is_first_device(devices, id, i))
    } else {
        None
    }
}

/// The label for a selection: the selected device's name if it is listed, its id
/// if it is not, and `Select Device` when nothing is selected.
pub open spec fn spec_device_label(devices: Seq<FlutterDevice>, selected_id: Option<Seq<char>>) -> Seq<
    char,
> {
    match selected_id {
        None => "Select Device"@,
        Some(id) => match device_index(devices, id) {
            Some(i) => devices[i].name@,
            None => id,
        },
    }
}

/// The first device with the given id.
pub proof fn lemma_device_index_first(devices: Seq<FlutterDevice>, id: Seq<char>, i: int)
    requires
        is_first_device(devices, id, i),
    ensures
        device_index(devices, id) == Some(i),
{
    let k = choose|k: int| is_first_device(devices, id, k);
    if k < i {
        assert(devices[k].id@ != id);
    } else if i < k {
        assert(devices[i].id@ != id);
    }
}

/// Label to show on the status-bar button: the selected device's name if
/// known, its raw id if it's not (yet) in `devices`, otherwise a placeholder.
pub fn device_label(devices: &[FlutterDevice], selected_id: Option<&str>) -> (r: String)
    ensures
        r@ == spec_device_label(
            devices@,
            match selected_id {
                Some(id) => Some(id@),
                None => None,
            },
        ),
{
    let id: &str = match selected_id {
        Some(id) => id,
        None => return String::from_str("Select Device"),
    };
    let wanted = id.to_owned();
    let mut i: usize = 0;
    while i < devices.len()
        invariant
            i <= devices@.len(),
            wanted@ == id@,
            selected_id == Some(id),
            forall|j: int| 0 <= j < i ==> devices@[j].id@ != id@,
        decreases devices@.len() - i,
    {
        if devices[i].id == wanted {
            proof {
                lemma_device_index_first(devices@, id@, i as int);
            }
            let name = devices[i].name.clone();
            return name;
        }
        i += 1;
    }
    wanted
}

/// The decimal digit `d` as a character.
pub open spec fn digit_char(d: nat) -> char {
    ((48 + d) as u32) as char
}

/// The decimal representation of `n`, without leading zeros.
pub open spec fn decimal(n: nat) -> Seq<char>
    decreases n,
{
    if n < 10 {
        seq![digit_char(n)]
    } else {
        decimal(n / 10).push(digit_char(n % 10))
    }
}

/// The text of one decimal digit.
fn digit_text(d: usize) -> (r: &'static str)
    requires
        d < 10,
    ensures
        r@ == seq![digit_char(d as nat)],
{
    proof {
        reveal_strlit("0");
        reveal_strlit("1");
        reveal_strlit("2");
        reveal_strlit("3");
        reveal_strlit("4");
        reveal_strlit("5");
        reveal_strlit("6");
        reveal_strlit("7");
        reveal_strlit("8");
        reveal_strlit("9");
    }
    let r = match d {
        0 => "0",
        1 => "1",
        2 => "2",
        3 => "3",
        4 => "4",
        5 => "5",
        6 => "6",
        7 => "7",
        8 => "8",
        _ => "9",
    };
    assert(r@ =~= seq![digit_char(d as nat)]);
    r
}

/// Appends the decimal representation of `n` to `text`.
fn append_decimal(text: &mut String, n: usize)
    ensures
        final(text)@ == old(text)@ + decimal(n as nat),
    decreases n,
{
    if n >= 10 {
        append_decimal(text, n / 10);
    }
    text.append(digit_text(n % 10));
    proof {
        if n >= 10 {
            assert(final(text)@ =~= old(text)@ + decimal(n as nat));
        } else {
            assert(final(text)@ =~= old(text)@ + decimal(n as nat));
        }
    }
}

/// The element id of the picker entry at `ix`: `flutter-device-entry-` and `ix`
/// in decimal.
pub fn device_entry_element_id(ix: usize) -> (r: String)
    ensures
        r@ == "flutter-device-entry-"@ + decimal(ix as nat),
{
    let mut id = String::from_str("flutter-device-entry-");
    append_decimal(&mut id, ix);
    id
}

/// One entry of the picker's list: its element id, whether it is marked as the
/// selected one, and the device's name as its title with its id below.
pub struct DeviceEntry {
    pub element_id: String,
    pub selected: bool,
    pub title: String,
    pub subtitle: String,
}

/// The picker's state: the devices offered, the matches for the current query
/// (each the position of a device among the candidates, best first), the selected
/// match, and whether the launch is still waiting for a choice.
pub struct DevicePicker {
    pub selected_index: nat,
    pub matches: Seq<usize>,
    pub candidates: Seq<FlutterDevice>,
    pub awaiting_choice: bool,
}

impl DevicePicker {
    /// The device of the selected match, where the selection and the match are in range.
    pub open spec fn chosen(self) -> Option<FlutterDevice> {
        if self.selected_index < self.matches.len() && self.matches[self.selected_index as int]
            < self.candidates.len() {
            Some(self.candidates[self.matches[self.selected_index as int] as int])
        } else {
            None
        }
    }

    /// The picker with new matches; the selection stays where it was, moved back
    /// onto the last match where it would fall past it, and is 0 where nothing matches.
    pub open spec fn with_matches(self, matches: Seq<usize>) -> DevicePicker {
        DevicePicker {
            matches,
            selected_index: if matches.len() == 0 {
                0
            } else if self.selected_index < matches.len() - 1 {
                self.selected_index
            } else {
                (matches.len() - 1) as nat
            },
            ..self
        }
    }

    /// What confirming sends to the waiting launch: the chosen device's id, or no
    /// device; nothing where no launch waits any more.
    pub open spec fn confirm_reply(self) -> Option<Option<Seq<char>>> {
        if self.awaiting_choice {
            Some(
                match self.chosen() {
                    Some(device) => Some(device.id@),
                    None => None,
                },
            )
        } else {
            None
        }
    }

    /// The picker after confirming: no launch waits any more.
    pub open spec fn after_confirm(self) -> DevicePicker {
        DevicePicker { awaiting_choice: false, ..self }
    }

    /// What dismissing sends to the waiting launch: no device; nothing where no
    /// launch waits any more.
    pub open spec fn dismiss_reply(self) -> Option<Option<Seq<char>>> {
        if self.awaiting_choice {
            Some(None)
        } else {
            None
        }
    }

    /// The picker after dismissing: the selection is reset and no launch waits.
    pub open spec fn after_dismiss(self) -> DevicePicker {
        DevicePicker { selected_index: 0, awaiting_choice: false, ..self }
    }
}

/// The picker that asks which Flutter device a launch should use.
pub struct FlutterDeviceModalDelegate {
    selected_index: usize,
    matches: Vec<usize>,
    candidates: Vec<FlutterDevice>,
    awaiting_choice: bool,
}

impl View for FlutterDeviceModalDelegate {
    type V = DevicePicker;

    closed spec fn view(&self) -> DevicePicker {
        DevicePicker {
            selected_index: self.selected_index as nat,
            matches: self.matches@,
            candidates: self.candidates@,
            awaiting_choice: self.awaiting_choice,
        }
    }
}

impl FlutterDeviceModalDelegate {
    /// A picker over `candidates`, with nothing matched yet, waiting for a choice.
    pub fn new(candidates: Vec<FlutterDevice>) -> (r: Self)
        ensures
            r@ == (DevicePicker {
                selected_index: 0,
                matches: Seq::empty(),
                candidates: candidates@,
                awaiting_choice: true,
            }),
    {
        FlutterDeviceModalDelegate {
            selected_index: 0,
            matches: Vec::new(),
            candidates,
            awaiting_choice: true,
        }
    }

    /// The picker's name.
    pub fn name() -> (r: String)
        ensures
            r@ == "flutter device modal"@,
    {
        String::from_str("flutter device modal")
    }

    /// The hint shown in the picker's empty query field.
    pub fn placeholder_text(&self) -> (r: String)
        ensures
            r@ == "Select the Flutter device to launch on"@,
    {
        String::from_str("Select the Flutter device to launch on")
    }

    /// The number of matches for the current query.
    pub fn match_count(&self) -> (r: usize)
        ensures
            r == self@.matches.len(),
    {
        self.matches.len()
    }

    /// The position of the selected match.
    pub fn selected_index(&self) -> (r: usize)
        ensures
            r == self@.selected_index,
    {
        self.selected_index
    }

    /// Selects the match at `ix`.
    pub fn set_selected_index(&mut self, ix: usize)
        ensures
            final(self)@ == (DevicePicker { selected_index: ix as nat, ..old(self)@ }),
    {
        self.selected_index = ix;
    }

    /// The text each device is matched against: its name, a space, and its id.
    /// The position of a text is the position of its device.
    pub fn match_candidates(&self) -> (r: Vec<String>)
        ensures
            r@.len() == self@.candidates.len(),
            forall|i: int|
                0 <= i < r@.len() ==> (#[trigger] r@[i])@ == self@.candidates[i].name@ + " "@
                    + self@.candidates[i].id@,
    {
        let mut texts: Vec<String> = Vec::new();
        let mut i: usize = 0;
        while i < self.candidates.len()
            invariant
                i <= self.candidates@.len(),
                texts@.len() == i,
                forall|j: int|
                    0 <= j < i ==> (#[trigger] texts@[j])@ == self.candidates@[j].name@ + " "@
                        + self.candidates@[j].id@,
            decreases self.candidates@.len() - i,
        {
            let device = &self.candidates[i];
            let text = device.name.clone().concat(" ").concat(device.id.as_str());
            texts.push(text);
            i += 1;
        }
        texts
    }

    /// Takes the matches for a new query, each the position of a candidate.
    pub fn set_matches(&mut self, matches: Vec<usize>)
        ensures
            final(self)@ == old(self)@.with_matches(matches@),
            (matches@.len() == 0 && final(self)@.selected_index == 0)
                || final(self)@.selected_index < matches@.len(),
    {
        self.matches = matches;
        if self.matches.len() == 0 {
            self.selected_index = 0;
        } else if self.selected_index > self.matches.len() - 1 {
            self.selected_index = self.matches.len() - 1;
        }
    }

    /// Confirms the selected match: returns what the waiting launch is sent, the
    /// chosen device's id or no device, and `None` where no launch waits any more.
    pub fn confirm(&mut self) -> (r: Option<Option<String>>)
        ensures
            final(self)@ == old(self)@.after_confirm(),
            r is Some <==> old(self)@.confirm_reply() is Some,
            r matches Some(reply) ==> old(self)@.confirm_reply() == Some(
                match reply {
                    Some(id) => Some(id@),
                    None => None,
                },
            ),
    {
        let device: Option<&FlutterDevice> = if self.selected_index < self.matches.len() {
            let ix = self.matches[self.selected_index];
            if ix < self.candidates.len() {
                Some(&self.candidates[ix])
            } else {
                None
            }
        } else {
            None
        };
        let reply = match device {
            Some(device) => Some(device.id.clone()),
            None => None,
        };
        if self.awaiting_choice {
            self.awaiting_choice = false;
            Some(reply)
        } else {
            None
        }
    }

    /// Dismisses the picker: resets the selection and returns what the waiting
    /// launch is sent, no device, or `None` where no launch waits any more.
    pub fn dismissed(&mut self) -> (r: Option<Option<String>>)
        ensures
            final(self)@ == old(self)@.after_dismiss(),
            r is Some <==> old(self)@.dismiss_reply() is Some,
            r matches Some(reply) ==> reply is None,
    {
        self.selected_index = 0;
        if self.awaiting_choice {
            self.awaiting_choice = false;
            Some(None)
        } else {
            None
        }
    }

    /// The device shown for the match at `ix`.
    pub fn match_device(&self, ix: usize) -> (r: Option<&FlutterDevice>)
        ensures
            r is Some <==> ix < self@.matches.len() && self@.matches[ix as int]
                < self@.candidates.len(),
            r matches Some(device) ==> *device == self@.candidates[self@.matches[ix as int] as int],
    {
        if ix < self.matches.len() {
            let candidate = self.matches[ix];
            if candidate < self.candidates.len() {
                return Some(&self.candidates[candidate]);
            }
        }
        None
    }

    /// The list entry for the match at `ix`, marked when `selected`: none where
    /// `ix` is past the matches or its match names no candidate.
    pub fn render_match(&self, ix: usize, selected: bool) -> (r: Option<DeviceEntry>)
        ensures
            r is Some <==> ix < self@.matches.len() && self@.matches[ix as int]
                < self@.candidates.len(),
            r matches Some(entry) ==> {
                let device = self@.candidates[self@.matches[ix as int] as int];
                &&& entry.element_id@ == "flutter-device-entry-"@ + decimal(ix as nat)
                &&& entry.selected == selected
                &&& entry.title@ == device.name@
                &&& entry.subtitle@ == device.id@
            },
    {
        match self.match_device(ix) {
            Some(device) => Some(
                DeviceEntry {
                    element_id: device_entry_element_id(ix),
                    selected,
                    title: device.name.clone(),
                    subtitle: device.id.clone(),
                },
            ),
            None => None,
        }
    }
}

/// The picker answers a launch at most once: after a confirmation or a dismissal,
/// neither confirming nor dismissing sends anything more.
pub proof fn lemma_picker_answers_once(picker: DevicePicker)
    ensures
        picker.after_confirm().confirm_reply() is None,
        picker.after_confirm().dismiss_reply() is None,
        picker.after_dismiss().confirm_reply() is None,
        picker.after_dismiss().dismiss_reply() is None,
{
}

/// After new matches arrive, the selection is 0 where nothing matched and on a
/// match otherwise, whatever the picker's state and the matches.
pub proof fn lemma_matches_keep_selection_in_range(picker: DevicePicker, matches: Seq<usize>)
    ensures
        (matches.len() == 0 && picker.with_matches(matches).selected_index == 0)
            || picker.with_matches(matches).selected_index < matches.len(),
        picker.with_matches(matches).matches == matches,
        picker.with_matches(matches).candidates == picker.candidates,
{
}

/// After new matches arrive, confirming picks one of them: where some candidate
/// matched and every match names a candidate, the chosen device is the one of the
/// selected match.
pub proof fn lemma_matches_choose_a_candidate(picker: DevicePicker, matches: Seq<usize>)
    requires
        matches.len() > 0,
        forall|i: int| 0 <= i < matches.len() ==> #[trigger] matches[i] < picker.candidates.len(),
    ensures
        picker.with_matches(matches).chosen() == Some(
            picker.candidates[matches[picker.with_matches(matches).selected_index as int] as int],
        ),
{
}

/// A newly opened picker waits for a choice, and dismissing it sends no device.
pub proof fn lemma_dismiss_sends_no_device(picker: DevicePicker)
    requires
        picker.awaiting_choice,
    ensures
        picker.dismiss_reply() == Some(None::<Seq<char>>),
{
}

/// The label shows `Select Device` when nothing is selected, the name of the
/// first listed device with the selected id, and the id itself where no listed
/// device has it.
pub proof fn lemma_label_rules(devices: Seq<FlutterDevice>, id: Seq<char>)
    ensures
        spec_device_label(devices, None) == "Select Device"@,
        forall|i: int|
            0 <= i < devices.len() && devices[i].id@ == id && (forall|j: int|
                0 <= j < i ==> devices[j].id@ != id) ==> spec_device_label(devices, Some(id))
                == (#[trigger] devices[i]).name@,
        (forall|j: int| 0 <= j < devices.len() ==> devices[j].id@ != id) ==> spec_device_label(
            devices,
            Some(id),
        ) == id,
{
    assert forall|i: int|
        0 <= i < devices.len() && devices[i].id@ == id && (forall|j: int|
            0 <= j < i ==> devices[j].id@ != id) implies spec_device_label(devices, Some(id))
        == (#[trigger] devices[i]).name@ by {
        lemma_device_index_first(devices, id, i);
    }
}

/// New matches keep the selection where it is still on a match, move it onto
/// the last match where it has fallen past the end, and reset it where nothing
/// matched; the candidates and the waiting launch are untouched.
pub proof fn lemma_new_matches_clamp_selection(picker: DevicePicker, matches: Seq<usize>)
    ensures
        picker.with_matches(matches).matches == matches,
        picker.with_matches(matches).candidates == picker.candidates,
        picker.with_matches(matches).awaiting_choice == picker.awaiting_choice,
        picker.selected_index < matches.len() ==> picker.with_matches(matches).selected_index
            == picker.selected_index,
        (matches.len() > 0 && picker.selected_index >= matches.len()) ==> picker.with_matches(
            matches,
        ).selected_index == matches.len() - 1,
        matches.len() == 0 ==> picker.with_matches(matches).selected_index == 0,
{
}

/// Confirming sends the id of the device of the selected match where the
/// selection and its match are in range, no device otherwise, and nothing where
/// no launch waits; afterwards no launch waits and nothing else changed.
pub proof fn lemma_confirm_sends_selected_device(picker: DevicePicker)
    ensures
        (picker.awaiting_choice && picker.selected_index < picker.matches.len()
            && picker.matches[picker.selected_index as int] < picker.candidates.len())
            ==> picker.confirm_reply() == Some(
            Some(picker.candidates[picker.matches[picker.selected_index as int] as int].id@),
        ),
        (picker.awaiting_choice && !(picker.selected_index < picker.matches.len()
            && picker.matches[picker.selected_index as int] < picker.candidates.len()))
            ==> picker.confirm_reply() == Some(None::<Seq<char>>),
        !picker.awaiting_choice ==> picker.confirm_reply() is None,
        picker.after_confirm() == (DevicePicker { awaiting_choice: false, ..picker }),
        picker.after_dismiss() == (DevicePicker {
            selected_index: 0,
            awaiting_choice: false,
            ..picker
        }),
        picker.awaiting_choice ==> picker.dismiss_reply() == Some(None::<Seq<char>>),
        !picker.awaiting_choice ==> picker.dismiss_reply() is None,
{
}

/// The number that a text of decimal digits spells.
pub open spec fn decimal_value(digits: Seq<char>) -> int
    decreases digits.len(),
{
    if digits.len() == 0 {
        0
    } else {
        10 * decimal_value(digits.drop_last()) + (digits.last() as int - '0' as int)
    }
}

/// The decimal text of a number consists of digits, has no leading zero unless
/// it is `0`, and spells the number.
pub proof fn lemma_decimal_spells_number(n: nat)
    ensures
        decimal(n).len() >= 1,
        forall|i: int| 0 <= i < decimal(n).len() ==> '0' <= #[trigger] decimal(n)[i] <= '9',
        decimal(n)[0] == '0' ==> n == 0,
        decimal_value(decimal(n)) == n,
    decreases n,
{
    assert('0' as int == 48);
    if n < 10 {
        assert(digit_char(n) as int == 48 + n);
        assert(decimal(n).last() == digit_char(n));
        assert(decimal(n).drop_last() =~= Seq::<char>::empty());
        assert(decimal_value(Seq::<char>::empty()) == 0);
        assert(decimal_value(decimal(n)) == 10 * decimal_value(decimal(n).drop_last()) + n);
    } else {
        lemma_decimal_spells_number(n / 10);
        let d = digit_char(n % 10);
        assert(d as int == 48 + n % 10);
        assert(decimal(n).drop_last() =~= decimal(n / 10));
        assert(decimal(n)[0] == decimal(n / 10)[0]);
        assert(decimal(n).last() == d);
        assert(decimal_value(decimal(n)) == 10 * decimal_value(decimal(n / 10)) + (n % 10));
        assert(n == 10 * (n / 10) + n % 10);
    }
}

} // verus!
