//! Choosing the physical pointer device among the input devices found.

use crate::capability::{has_axis, has_key, supports_axis, supports_key};
use crate::capability::{BTN_LEFT, BTN_MIDDLE, BTN_RIGHT, REL_X, REL_Y};
use crate::error::AutoscrollError;
use crate::text::{chars_of, contains_chars, contains_seq, has_prefix, matches_at};
use evdev::{AttributeSetRef, Key, RelativeAxisType};
use vstd::prelude::*;

verus! {

/// Priority of a device whose name marks it as a keyboard with a pointer part.
pub const PRIORITY_KEYBOARD: u8 = 1;

/// Priority of every other pointer device.
pub const PRIORITY_POINTER: u8 = 2;

/// The lowercase form of a string, character by character as the standard
/// library's Unicode tables give it.
pub uninterp spec fn lowercase_of(s: Seq<char>) -> Seq<char>;

/// Calls `str::to_lowercase`. Assumed: the result depends on the characters
/// of the argument alone.
#[verifier::external_body]
fn to_lowercase(s: &str) -> (lowered: String)
    ensures
        lowered@ == lowercase_of(s@),
{
    s.to_lowercase()
}

/// The word that marks a combined keyboard and pointer device.
pub open spec fn keyboard_word() -> Seq<char> {
    seq!['k', 'e', 'y', 'b', 'o', 'a', 'r', 'd']
}

/// The prefix of the file names of event device nodes.
pub open spec fn event_prefix() -> Seq<char> {
    seq!['e', 'v', 'e', 'n', 't']
}

/// The name given to a device that reports none.
pub open spec fn unknown_name() -> Seq<char> {
    seq!['U', 'n', 'k', 'n', 'o', 'w', 'n']
}

/// Priority of a device by its name in lowercase.
pub open spec fn priority_of_lowered(lowered: Seq<char>) -> u8 {
    if contains_seq(lowered, keyboard_word()) {
        PRIORITY_KEYBOARD
    } else {
        PRIORITY_POINTER
    }
}

/// Whether a file name under the input directory names an event device node.
pub fn is_event_node(file_name: &str) -> (b: bool)
    ensures
        b == has_prefix(file_name@, event_prefix()),
{
    let name = chars_of(file_name);
    let prefix: Vec<char> = vec!['e', 'v', 'e', 'n', 't'];
    assert(prefix@ =~= event_prefix());
    matches_at(&name, &prefix, 0)
}

/// Priority of a device, given its name already in lowercase.
pub fn priority_from_lowercase(lowered: &str) -> (p: u8)
    ensures
        p == priority_of_lowered(lowered@),
{
    let name = chars_of(lowered);
    let word: Vec<char> = vec!['k', 'e', 'y', 'b', 'o', 'a', 'r', 'd'];
    assert(word@ =~= keyboard_word());
    if contains_chars(&name, &word) {
        PRIORITY_KEYBOARD
    } else {
        PRIORITY_POINTER
    }
}

/// A physical input source with the capabilities the selector looks at.
#[derive(Debug)]
pub struct PointerDevice {
    pub path: String,
    pub name: String,
    pub has_left: bool,
    pub has_middle: bool,
    pub has_right: bool,
    pub has_rel_x: bool,
    pub has_rel_y: bool,
}

impl PointerDevice {
    /// At least one pointer button, and both relative axes.
    pub open spec fn spec_qualifies(&self) -> bool {
        &&& self.has_left || self.has_middle || self.has_right
        &&& self.has_rel_x
        &&& self.has_rel_y
    }

    /// Devices named as keyboards rank below all others.
    pub open spec fn spec_priority(&self) -> u8 {
        priority_of_lowered(lowercase_of(self.name@))
    }

    /// The priority of a device that qualifies, nothing for one that does
    /// not.
    pub open spec fn spec_rank(&self) -> Option<u8> {
        if self.spec_qualifies() {
            Some(self.spec_priority())
        } else {
            None
        }
    }

    /// Describes a device by what it reports: its name, if any, and its key
    /// and relative-axis capability sets, if any.
    pub fn probe(
        path: &str,
        name: Option<&str>,
        keys: Option<&AttributeSetRef<Key>>,
        axes: Option<&AttributeSetRef<RelativeAxisType>>,
    ) -> (device: PointerDevice)
        ensures
            device.path@ == path@,
            device.name@ == match name {
                Some(n) => n@,
                None => unknown_name(),
            },
            device.has_left == supports_key(keys, BTN_LEFT),
            device.has_middle == supports_key(keys, BTN_MIDDLE),
            device.has_right == supports_key(keys, BTN_RIGHT),
            device.has_rel_x == supports_axis(axes, REL_X),
            device.has_rel_y == supports_axis(axes, REL_Y),
    {
        let name = match name {
            Some(n) => n.to_owned(),
            None => {
                proof {
                    reveal_strlit("Unknown");
                    assert("Unknown"@ =~= unknown_name());
                }
                "Unknown".to_owned()
            },
        };
        PointerDevice {
            path: path.to_owned(),
            name,
            has_left: has_key(keys, BTN_LEFT),
            has_middle: has_key(keys, BTN_MIDDLE),
            has_right: has_key(keys, BTN_RIGHT),
            has_rel_x: has_axis(axes, REL_X),
            has_rel_y: has_axis(axes, REL_Y),
        }
    }

    /// Whether the device qualifies as a pointer device.
    pub fn qualifies(&self) -> (b: bool)
        ensures
            b == self.spec_qualifies(),
    {
        (self.has_left || self.has_middle || self.has_right) && self.has_rel_x && self.has_rel_y
    }

    /// The tie-break priority of the device; higher is preferred.
    pub fn priority(&self) -> (p: u8)
        ensures
            p == self.spec_priority(),
    {
        let lowered = to_lowercase(self.name.as_str());
        priority_from_lowercase(lowered.as_str())
    }

    /// The priority of the device if it qualifies.
    pub fn rank(&self) -> (r: Option<u8>)
        ensures
            r == self.spec_rank(),
    {
        if self.qualifies() {
            Some(self.priority())
        } else {
            None
        }
    }
}

/// Position `i` holds the best rank: a priority that none exceeds and that
/// none before it reaches.
pub open spec fn is_best(ranks: Seq<Option<u8>>, i: int) -> bool {
    &&& 0 <= i < ranks.len()
    &&& ranks[i] is Some
    &&& forall|j: int| 0 <= j < ranks.len() && ranks[j] is Some ==> ranks[j]->0 <= ranks[i]->0
    &&& forall|j: int| 0 <= j < i && ranks[j] is Some ==> ranks[j]->0 < ranks[i]->0
}

/// No position holds a rank.
pub open spec fn none_ranked(ranks: Seq<Option<u8>>) -> bool {
    forall|j: int| 0 <= j < ranks.len() ==> ranks[j] is None
}

/// The first position of the highest priority among the ranks, if there is
/// any rank.
pub fn select_best(ranks: &Vec<Option<u8>>) -> (selected: Option<usize>)
    ensures
        match selected {
            Some(i) => is_best(ranks@, i as int),
            None => none_ranked(ranks@),
        },
{
    let mut best: Option<(usize, u8)> = None;
    let mut at: usize = 0;
    while at < ranks.len()
        invariant
            at <= ranks.len(),
            match best {
                Some((i, p)) => {
                    &&& i < at
                    &&& ranks@[i as int] == Some(p)
                    &&& is_best(ranks@.take(at as int), i as int)
                },
                None => none_ranked(ranks@.take(at as int)),
            },
        decreases ranks.len() - at,
    {
        let ghost before = ranks@.take(at as int);
        let ghost after = ranks@.take(at + 1);
        assert(forall|j: int| 0 <= j < at ==> before[j] == after[j]);
        assert(after[at as int] == ranks@[at as int]);
        match ranks[at] {
            Some(p) => {
                match best {
                    Some((_, best_priority)) => {
                        if p > best_priority {
                            best = Some((at, p));
                        }
                    },
                    None => {
                        best = Some((at, p));
                    },
                }
            },
            None => {},
        }
        at += 1;
    }
    assert(ranks@.take(at as int) =~= ranks@);
    match best {
        Some((i, _)) => Some(i),
        None => None,
    }
}

/// No candidate qualifies.
pub open spec fn none_qualifies(candidates: Seq<PointerDevice>) -> bool {
    forall|j: int| 0 <= j < candidates.len() ==> !(#[trigger] candidates[j]).spec_qualifies()
}

/// Candidate `i` is the one to select: it qualifies, no qualifying candidate
/// has a higher priority, and every qualifying candidate before it has a
/// lower one.
pub open spec fn is_selection(candidates: Seq<PointerDevice>, i: int) -> bool {
    &&& 0 <= i < candidates.len()
    &&& candidates[i].spec_qualifies()
    &&& forall|j: int|
        0 <= j < candidates.len() && (#[trigger] candidates[j]).spec_qualifies()
            ==> candidates[j].spec_priority() <= candidates[i].spec_priority()
    &&& forall|j: int|
        0 <= j < i && (#[trigger] candidates[j]).spec_qualifies()
            ==> candidates[j].spec_priority() < candidates[i].spec_priority()
}

/// The position of the candidate to open, if any qualifies.
pub fn select_device(candidates: &Vec<PointerDevice>) -> (selected: Option<usize>)
    ensures
        match selected {
            Some(i) => is_selection(candidates@, i as int),
            None => none_qualifies(candidates@),
        },
{
    let mut ranks: Vec<Option<u8>> = Vec::new();
    let mut at: usize = 0;
    while at < candidates.len()
        invariant
            at <= candidates.len(),
            ranks@.len() == at,
            forall|j: int| 0 <= j < at ==> ranks@[j] == (#[trigger] candidates@[j]).spec_rank(),
        decreases candidates.len() - at,
    {
        ranks.push(candidates[at].rank());
        at += 1;
    }
    select_best(&ranks)
}

/// The path of the pointer device to open.
///
/// Fails with `DeviceNotFound` exactly when no candidate qualifies.
pub fn find_mouse_device(candidates: &Vec<PointerDevice>) -> (found: Result<String, AutoscrollError>)
    ensures
        match found {
            Ok(path) => exists|i: int|
                is_selection(candidates@, i) && path@ == (#[trigger] candidates@[i]).path@,
            Err(e) => e == AutoscrollError::DeviceNotFound && none_qualifies(candidates@),
        },
{
    match select_device(candidates) {
        Some(i) => Ok(candidates[i].path.clone()),
        None => Err(AutoscrollError::DeviceNotFound),
    }
}

/// At most one candidate is the selection.
pub proof fn lemma_selection_unique(candidates: Seq<PointerDevice>, i: int, j: int)
    requires
        is_selection(candidates, i),
        is_selection(candidates, j),
    ensures
        i == j,
{
}

/// A selection exists exactly when some candidate qualifies.
pub proof fn lemma_selection_exists(candidates: Seq<PointerDevice>)
    ensures
        (exists|i: int| is_selection(candidates, i)) <==> !none_qualifies(candidates),
    decreases candidates.len(),
{
    if exists|i: int| is_selection(candidates, i) {
        let i = choose|i: int| is_selection(candidates, i);
        assert(candidates[i].spec_qualifies());
    }
    if !none_qualifies(candidates) {
        let earlier = candidates.drop_last();
        let last = candidates.len() - 1;
        assert(forall|j: int| 0 <= j < last ==> earlier[j] == candidates[j]);
        lemma_selection_exists(earlier);
        if none_qualifies(earlier) {
            assert(is_selection(candidates, last));
        } else {
            let best = choose|i: int| is_selection(earlier, i);
            if candidates[last].spec_qualifies() && candidates[last].spec_priority()
                > candidates[best].spec_priority() {
                assert(is_selection(candidates, last));
            } else {
                assert(is_selection(candidates, best));
            }
        }
    }
}

/// The selected device has both relative axes and at least one pointer
/// button, whatever the other candidates offer.
pub proof fn lemma_selection_has_both_axes(candidates: Seq<PointerDevice>, i: int)
    requires
        is_selection(candidates, i),
    ensures
        candidates[i].has_rel_x,
        candidates[i].has_rel_y,
        candidates[i].has_left || candidates[i].has_middle || candidates[i].has_right,
{
}

/// A device without both relative axes is never the selection, even with all
/// three buttons.
pub proof fn lemma_axisless_never_selected(candidates: Seq<PointerDevice>, i: int)
    requires
        0 <= i < candidates.len(),
        !candidates[i].has_rel_x || !candidates[i].has_rel_y,
    ensures
        !is_selection(candidates, i),
{
}

} // verus!
