//! Matching the channels to collect with the data files found for their
//! device, and bringing what was read from the files into the table.
use crate::data::list::Capacity;
use crate::input::form::DataForm;
use crate::manager::channel::{
    active_spec, as_position, cycle_update_fits, find_channel_info_index, find_spec, ChannelActive,
    ChannelInfo, CycleUpdate, DialogResult,
};
use crate::manager::group::{group_push, grouped, groups_view};
use vstd::prelude::*;

verus! {

/// The last data file among `forms` that records channel `ch`.
pub open spec fn last_form_with(forms: Seq<DataForm>, ch: Seq<char>) -> Option<int>
    decreases forms.len(),
{
    if forms.len() == 0 {
        None
    } else if forms.last().channel_view() == ch {
        Some(forms.len() - 1)
    } else {
        last_form_with(forms.drop_last(), ch)
    }
}

/// The first data file among `forms` that records channel `ch`.
pub open spec fn first_form_with(forms: Seq<DataForm>, ch: Seq<char>) -> Option<int>
    decreases forms.len(),
{
    if forms.len() == 0 {
        None
    } else {
        match first_form_with(forms.drop_last(), ch) {
            Some(i) => Some(i),
            None => if forms.last().channel_view() == ch {
                Some(forms.len() - 1)
            } else {
                None
            },
        }
    }
}

proof fn lemma_form_with_bounds(forms: Seq<DataForm>, ch: Seq<char>)
    ensures
        last_form_with(forms, ch) matches Some(i) ==> 0 <= i < forms.len() && forms[i].channel_view()
            == ch,
        first_form_with(forms, ch) matches Some(i) ==> 0 <= i < forms.len() && forms[i].channel_view()
            == ch,
    decreases forms.len(),
{
    if forms.len() > 0 {
        lemma_form_with_bounds(forms.drop_last(), ch);
    }
}

/// The data file for channel `ch`: the last one when `last`, else the first.
pub open spec fn form_with(forms: Seq<DataForm>, ch: Seq<char>, last: bool) -> Option<int> {
    if last {
        last_form_with(forms, ch)
    } else {
        first_form_with(forms, ch)
    }
}

/// An index of data files by the channel they record; a channel that
/// several files record maps to the last of them.
pub struct ChannelIndex {
    entries: Vec<(String, usize)>,
}

impl ChannelIndex {
    /// No channel occurs twice.
    pub closed spec fn wf(&self) -> bool {
        forall|i: int, j: int|
            0 <= i < j < self.entries.len() ==> #[trigger] self.entries@[i].0@
                != #[trigger] self.entries@[j].0@
    }

    /// The file position recorded for `key`.
    pub closed spec fn lookup(&self, key: Seq<char>) -> Option<usize> {
        if exists|i: int| 0 <= i < self.entries.len() && #[trigger] self.entries@[i].0@ == key {
            Some(
                self.entries@[choose|i: int|
                    0 <= i < self.entries.len() && #[trigger] self.entries@[i].0@ == key].1,
            )
        } else {
            None
        }
    }

    fn new() -> (r: ChannelIndex)
        ensures
            r.wf(),
            forall|k: Seq<char>| #[trigger] r.lookup(k) is None,
    {
        ChannelIndex { entries: Vec::new() }
    }

    fn insert(&mut self, key: String, value: usize)
        requires
            old(self).wf(),
        ensures
            final(self).wf(),
            final(self).lookup(key@) == Some(value),
            forall|k: Seq<char>| k != key@ ==> #[trigger] final(self).lookup(k) == old(self).lookup(k),
    {
        let mut i: usize = 0;
        while i < self.entries.len()
            invariant
                self.wf(),
                *self == *old(self),
                i <= self.entries.len(),
                forall|j: int| 0 <= j < i ==> #[trigger] self.entries@[j].0@ != key@,
            decreases self.entries.len() - i,
        {
            if crate::text::same_text(self.entries[i].0.as_str(), key.as_str()) {
                let ghost before = self.entries@;
                self.entries.set(i, (key, value));
                assert forall|k: Seq<char>| k != key@ implies #[trigger] self.lookup(k) == old(
                    self,
                ).lookup(k) by {
                    if exists|j: int| 0 <= j < before.len() && #[trigger] before[j].0@ == k {
                        let j = choose|j: int| 0 <= j < before.len() && #[trigger] before[j].0@ == k;
                        assert(self.entries@[j].0@ == k);
                    }
                }
                assert(self.entries@[i as int].0@ == key@);
                return;
            }
            i = i + 1;
        }
        let ghost before = self.entries@;
        self.entries.push((key, value));
        assert forall|k: Seq<char>| k != key@ implies #[trigger] self.lookup(k) == old(self).lookup(
            k,
        ) by {
            if exists|j: int| 0 <= j < before.len() && #[trigger] before[j].0@ == k {
                let j = choose|j: int| 0 <= j < before.len() && #[trigger] before[j].0@ == k;
                assert(self.entries@[j].0@ == k);
            }
        }
        assert(self.entries@[before.len() as int].0@ == key@);
    }

    /// The file position recorded for channel `key`.
    pub fn get(&self, key: &str) -> (r: Option<usize>)
        requires
            self.wf(),
        ensures
            r == self.lookup(key@),
    {
        let mut i: usize = 0;
        while i < self.entries.len()
            invariant
                self.wf(),
                i <= self.entries.len(),
                forall|j: int| 0 <= j < i ==> #[trigger] self.entries@[j].0@ != key@,
            decreases self.entries.len() - i,
        {
            if crate::text::same_text(self.entries[i].0.as_str(), key) {
                assert(self.entries@[i as int].0@ == key@);
                return Some(self.entries[i].1);
            }
            i = i + 1;
        }
        None
    }
}

/// Indexes the data files of a device by the channel each records.
pub fn build_channel_index(data_forms: &Vec<DataForm>) -> (r: ChannelIndex)
    ensures
        r.wf(),
        forall|ch: Seq<char>|
            as_position(#[trigger] r.lookup(ch)) == last_form_with(data_forms@, ch),
{
    let mut index = ChannelIndex::new();
    let mut i: usize = 0;
    while i < data_forms.len()
        invariant
            i <= data_forms.len(),
            index.wf(),
            forall|ch: Seq<char>|
                as_position(#[trigger] index.lookup(ch)) == last_form_with(
                    data_forms@.take(i as int),
                    ch,
                ),
        decreases data_forms.len() - i,
    {
        let ghost upto = data_forms@.take(i + 1);
        assert(upto.drop_last() =~= data_forms@.take(i as int));
        index.insert(data_forms[i].get_channel(), i);
        i = i + 1;
    }
    assert(data_forms@.take(data_forms.len() as int) =~= data_forms@);
    index
}

/// A data file to read for a channel.
#[derive(Debug)]
pub struct MatchTask {
    pub device: String,
    /// The channel the file was found under: the current or the previous one.
    pub channel: String,
    pub first_run: bool,
    /// The position of the file among the device's files.
    pub form: usize,
}

pub open spec fn task_view(t: MatchTask) -> (Seq<char>, Seq<char>, bool, int) {
    (t.device@, t.channel@, t.first_run, t.form as int)
}

/// The previous channel of an active channel, `N/A` when there is none.
pub open spec fn prv_or_na(a: ChannelActive) -> Seq<char> {
    match a.channel_prv {
        Some(p) => p@,
        None => "N/A"@,
    }
}

/// The file to read for an active channel: the file for its channel, or
/// else the file for its previous channel.
pub open spec fn match_one(device: Seq<char>, a: ChannelActive, forms: Seq<DataForm>, last: bool) -> Option<
    (Seq<char>, Seq<char>, bool, int),
> {
    match form_with(forms, a.channel@, last) {
        Some(f) => Some((device, a.channel@, a.first_run, f)),
        None => match form_with(forms, prv_or_na(a), last) {
            Some(f) => Some((device, prv_or_na(a), a.first_run, f)),
            None => None,
        },
    }
}

/// The files to read for the active channels of a device, in their order.
pub open spec fn planned(device: Seq<char>, actives: Seq<ChannelActive>, forms: Seq<DataForm>, last: bool) -> Seq<
    (Seq<char>, Seq<char>, bool, int),
>
    decreases actives.len(),
{
    if actives.len() == 0 {
        Seq::empty()
    } else {
        let rest = planned(device, actives.drop_last(), forms, last);
        match match_one(device, actives.last(), forms, last) {
            Some(t) => rest.push(t),
            None => rest,
        }
    }
}

/// The file for the channel of `channel_active`, looked up in the index.
pub fn try_match_channel(device: &str, channel_active: &ChannelActive, channel_index: &ChannelIndex) -> (r:
    Option<MatchTask>)
    requires
        channel_index.wf(),
    ensures
        match channel_index.lookup(channel_active.channel@) {
            Some(f) => r matches Some(t) && task_view(t) == (
                device@,
                channel_active.channel@,
                channel_active.first_run,
                f as int,
            ),
            None => r is None,
        },
{
    let channel = channel_active.get_channel();
    match channel_index.get(channel.as_str()) {
        Some(f) => Some(
            MatchTask {
                device: device.to_owned(),
                channel,
                first_run: channel_active.first_run,
                form: f,
            },
        ),
        None => None,
    }
}

/// The file for the previous channel of `channel_active` (`N/A` when it
/// has none), looked up in the index.
pub fn try_match_channel_prv(
    device: &str,
    channel_active: &ChannelActive,
    channel_index: &ChannelIndex,
) -> (r: Option<MatchTask>)
    requires
        channel_index.wf(),
    ensures
        match channel_index.lookup(prv_or_na(*channel_active)) {
            Some(f) => r matches Some(t) && task_view(t) == (
                device@,
                prv_or_na(*channel_active),
                channel_active.first_run,
                f as int,
            ),
            None => r is None,
        },
{
    let channel = channel_active.get_channel_prv();
    match channel_index.get(channel.as_str()) {
        Some(f) => Some(
            MatchTask {
                device: device.to_owned(),
                channel,
                first_run: channel_active.first_run,
                form: f,
            },
        ),
        None => None,
    }
}

/// The files to read for the active channels of one device: each channel
/// is looked up in the index of the device's files, by its channel first
/// and then by its previous channel.
pub fn create_matching_tasks(device: &str, device_channels: &Vec<ChannelActive>, device_data: &Vec<DataForm>) -> (r:
    Vec<MatchTask>)
    ensures
        r@.map_values(|t: MatchTask| task_view(t)) == planned(
            device@,
            device_channels@,
            device_data@,
            true,
        ),
{
    let channel_index = build_channel_index(device_data);
    let mut tasks: Vec<MatchTask> = Vec::new();
    let mut i: usize = 0;
    while i < device_channels.len()
        invariant
            i <= device_channels.len(),
            channel_index.wf(),
            forall|ch: Seq<char>|
                as_position(#[trigger] channel_index.lookup(ch)) == last_form_with(device_data@, ch),
            tasks@.map_values(|t: MatchTask| task_view(t)) == planned(
                device@,
                device_channels@.take(i as int),
                device_data@,
                true,
            ),
        decreases device_channels.len() - i,
    {
        let ghost upto = device_channels@.take(i + 1);
        assert(upto.drop_last() =~= device_channels@.take(i as int));
        let active = &device_channels[i];
        assert(upto.last() == *active);
        proof {
            lemma_form_with_bounds(device_data@, active.channel@);
            lemma_form_with_bounds(device_data@, prv_or_na(*active));
        }
        let ghost before = tasks@.map_values(|t: MatchTask| task_view(t));
        let ghost expected = planned(device@, upto, device_data@, true);
        match try_match_channel(device, active, &channel_index) {
            Some(task) => {
                assert(channel_index.lookup(active.channel@) is Some);
                assert(match_one(device@, *active, device_data@, true) == Some(task_view(task)));
                assert(expected == before.push(task_view(task)));
                tasks.push(task);
                assert(tasks@.map_values(|t: MatchTask| task_view(t)) =~= before.push(
                    task_view(task),
                ));
            },
            None => {
                assert(channel_index.lookup(active.channel@) is None);
                match try_match_channel_prv(device, active, &channel_index) {
                    Some(task) => {
                        assert(channel_index.lookup(prv_or_na(*active)) is Some);
                        assert(match_one(device@, *active, device_data@, true) == Some(
                            task_view(task),
                        ));
                        tasks.push(task);
                        assert(tasks@.map_values(|t: MatchTask| task_view(t)) =~= before.push(
                            task_view(task),
                        ));
                    },
                    None => {
                        assert(channel_index.lookup(prv_or_na(*active)) is None);
                        assert(match_one(device@, *active, device_data@, true) is None);
                    },
                }
            },
        }
        i = i + 1;
    }
    assert(device_channels@.take(device_channels.len() as int) =~= device_channels@);
    tasks
}

/// The position of the first data file that records `channel`.
pub fn first_form_for(device_data: &Vec<DataForm>, channel: &str) -> (r: Option<usize>)
    ensures
        as_position(r) == first_form_with(device_data@, channel@),
{
    let mut i: usize = 0;
    while i < device_data.len()
        invariant
            i <= device_data.len(),
            first_form_with(device_data@.take(i as int), channel@) is None,
        decreases device_data.len() - i,
    {
        let ghost upto = device_data@.take(i + 1);
        assert(upto.drop_last() =~= device_data@.take(i as int));
        if device_data[i].channel_eq(channel) {
            proof {
                lemma_first_form_extends(device_data@, (i + 1) as nat, channel@);
            }
            return Some(i);
        }
        i = i + 1;
    }
    assert(device_data@.take(device_data.len() as int) =~= device_data@);
    None
}

/// Once a prefix of `forms` has a file for `ch`, the whole does, at the same place.
proof fn lemma_first_form_extends(forms: Seq<DataForm>, k: nat, ch: Seq<char>)
    requires
        k <= forms.len(),
        first_form_with(forms.take(k as int), ch) is Some,
    ensures
        first_form_with(forms, ch) == first_form_with(forms.take(k as int), ch),
    decreases forms.len() - k,
{
    if k < forms.len() {
        let nxt = forms.take((k + 1) as int);
        assert(nxt.drop_last() =~= forms.take(k as int));
        lemma_first_form_extends(forms, k + 1, ch);
    } else {
        assert(forms.take(k as int) =~= forms);
    }
}

/// The files to read for the active channels of one device, scanning the
/// device's files in order: each channel takes the first file for its
/// channel, or else the first file for its previous channel.
pub fn match_channels_by_scan(device: &str, device_channels: &Vec<ChannelActive>, device_data: &Vec<DataForm>) -> (r:
    Vec<MatchTask>)
    ensures
        r@.map_values(|t: MatchTask| task_view(t)) == planned(
            device@,
            device_channels@,
            device_data@,
            false,
        ),
{
    let mut tasks: Vec<MatchTask> = Vec::new();
    let mut i: usize = 0;
    while i < device_channels.len()
        invariant
            i <= device_channels.len(),
            tasks@.map_values(|t: MatchTask| task_view(t)) == planned(
                device@,
                device_channels@.take(i as int),
                device_data@,
                false,
            ),
        decreases device_channels.len() - i,
    {
        let ghost upto = device_channels@.take(i + 1);
        assert(upto.drop_last() =~= device_channels@.take(i as int));
        let active = &device_channels[i];
        assert(upto.last() == *active);
        let ghost before = tasks@.map_values(|t: MatchTask| task_view(t));
        let channel = active.get_channel();
        match first_form_for(device_data, channel.as_str()) {
            Some(f) => {
                let task = MatchTask {
                    device: device.to_owned(),
                    channel,
                    first_run: active.first_run,
                    form: f,
                };
                assert(match_one(device@, *active, device_data@, false) == Some(task_view(task)));
                tasks.push(task);
                assert(tasks@.map_values(|t: MatchTask| task_view(t)) =~= before.push(
                    task_view(task),
                ));
            },
            None => {
                let prv = active.get_channel_prv();
                match first_form_for(device_data, prv.as_str()) {
                    Some(f) => {
                        let task = MatchTask {
                            device: device.to_owned(),
                            channel: prv,
                            first_run: active.first_run,
                            form: f,
                        };
                        assert(match_one(device@, *active, device_data@, false) == Some(
                            task_view(task),
                        ));
                        tasks.push(task);
                        assert(tasks@.map_values(|t: MatchTask| task_view(t)) =~= before.push(
                            task_view(task),
                        ));
                    },
                    None => {
                        assert(match_one(device@, *active, device_data@, false) is None);
                    },
                }
            },
        }
        i = i + 1;
    }
    assert(device_channels@.take(device_channels.len() as int) =~= device_channels@);
    tasks
}

/// The channels to collect, keyed by device, in table order.
pub open spec fn active_items(infos: Seq<ChannelInfo>) -> Seq<(Seq<char>, ChannelActive)>
    decreases infos.len(),
{
    if infos.len() == 0 {
        Seq::empty()
    } else {
        let rest = active_items(infos.drop_last());
        match active_spec(infos.last()) {
            Some(a) => rest.push((infos.last().device@, a)),
            None => rest,
        }
    }
}

/// The channels to collect, grouped by device: devices in the order they
/// first appear in the table, channels in table order.
pub fn group_active_channels(infos: &Vec<ChannelInfo>) -> (r: Vec<(String, Vec<ChannelActive>)>)
    ensures
        groups_view(r@) == grouped(active_items(infos@)),
{
    let mut groups: Vec<(String, Vec<ChannelActive>)> = Vec::new();
    let mut i: usize = 0;
    assert(groups_view(groups@) =~= Seq::<(Seq<char>, Seq<ChannelActive>)>::empty());
    while i < infos.len()
        invariant
            i <= infos.len(),
            groups_view(groups@) == grouped(active_items(infos@.take(i as int))),
        decreases infos.len() - i,
    {
        let ghost upto = infos@.take(i + 1);
        assert(upto.drop_last() =~= infos@.take(i as int));
        assert(upto.last() == infos@[i as int]);
        let ghost before = active_items(infos@.take(i as int));
        match infos[i].get_active() {
            Some(active) => {
                let device = infos[i].get_device();
                assert(active_items(upto) == before.push((device@, active)));
                assert(active_items(upto).drop_last() =~= before);
                group_push(&mut groups, device, active);
            },
            None => {
                assert(active_items(upto) == before);
            },
        }
        i = i + 1;
    }
    assert(infos@.take(infos.len() as int) =~= infos@);
    groups
}

/// What data read from the files says of one channel.
#[derive(Debug)]
pub struct MatchResult {
    pub device: String,
    pub channel: String,
    pub cycle_count: u32,
    pub capacity: Capacity,
    pub form_path: String,
    pub first_capacity: Option<Capacity>,
}

/// What bringing a result into the table did.
#[derive(Debug, Clone, Copy, PartialEq, Eq, Structural)]
pub enum ApplyOutcome {
    /// No entry of the table is for the result's channel.
    NotFound,
    /// Entry `index` was updated.
    Applied(usize),
    /// Entry `index` was updated but for its cycle count, which would go
    /// down from `current` to `calculated`; the user has to settle it.
    NeedsConfirmation { index: usize, current: usize, calculated: usize },
}

/// An entry after taking in a result: the new capacity, the cycle count
/// as `update_cycles` records it, the data file, and the first capacity
/// when none was recorded yet.
pub open spec fn after_result(info: ChannelInfo, result: MatchResult) -> ChannelInfo {
    let p = info.previous_cycles.unwrap_or(0);
    let c = info.current_cycles.unwrap_or(0);
    let new = result.cycle_count as usize;
    ChannelInfo {
        current_capacity: Some(result.capacity),
        previous_cycles: if new > c {
            Some(p)
        } else {
            info.previous_cycles
        },
        current_cycles: if new > c {
            Some(new)
        } else if p + new < c {
            info.current_cycles
        } else {
            Some((p + new) as usize)
        },
        form_path: Some(result.form_path),
        initial_capacity: if info.initial_capacity is None && result.first_capacity is Some {
            result.first_capacity
        } else {
            info.initial_capacity
        },
        ..info
    }
}

/// Brings a result read from a data file into the table: the entry for
/// the result's device and channel (current or previous) gets the new
/// capacity, cycle count, data file and, if it had none, first capacity.
pub fn apply_match_result(infos: &mut Vec<ChannelInfo>, result: MatchResult) -> (r: ApplyOutcome)
    requires
        find_spec(old(infos)@, result.device@, result.channel@) matches Some(i)
            ==> cycle_update_fits(old(infos)@[i], result.cycle_count as nat),
    ensures
        match find_spec(old(infos)@, result.device@, result.channel@) {
            None => r == ApplyOutcome::NotFound && final(infos)@ == old(infos)@,
            Some(i) => {
                let info = old(infos)@[i];
                let p = info.previous_cycles.unwrap_or(0);
                let c = info.current_cycles.unwrap_or(0);
                let new = result.cycle_count as usize;
                &&& final(infos)@ == old(infos)@.update(i, after_result(info, result))
                &&& if new <= c && p + new < c {
                    r matches ApplyOutcome::NeedsConfirmation { index, current, calculated }
                        && index == i && current == c && calculated == p + new
                } else {
                    r matches ApplyOutcome::Applied(index) && index == i
                }
            },
        },
{
    let index = find_channel_info_index(infos, result.device.as_str(), result.channel.as_str());
    match index {
        None => ApplyOutcome::NotFound,
        Some(i) => {
            let ghost before = infos@;
            let mut info = infos.remove(i);
            info.update_capacity(result.capacity);
            let update = info.update_cycles(result.cycle_count as usize);
            info.update_form_path(result.form_path);
            match result.first_capacity {
                Some(first) => info.update_initial_capacity(first),
                None => {},
            }
            infos.insert(i, info);
            assert(infos@ =~= before.update(i as int, info));
            match update {
                CycleUpdate::Applied => ApplyOutcome::Applied(i),
                CycleUpdate::NeedsConfirmation { current, calculated } => {
                    ApplyOutcome::NeedsConfirmation { index: i, current, calculated }
                },
            }
        },
    }
}

/// Settles the cycle count of entry `index` as the user chose.
pub fn resolve_cycle_conflict_at(
    infos: &mut Vec<ChannelInfo>,
    index: usize,
    choice: DialogResult,
    calculated: usize,
)
    requires
        index < old(infos).len(),
    ensures
        final(infos)@ == old(infos)@.update(
            index as int,
            match choice {
                DialogResult::Cancel => old(infos)@[index as int],
                DialogResult::Ignore => ChannelInfo {
                    current_cycles: Some(calculated),
                    ..old(infos)@[index as int]
                },
                DialogResult::Confirm(actual) => ChannelInfo {
                    current_cycles: Some(actual),
                    ..old(infos)@[index as int]
                },
            },
        ),
{
    let ghost before = infos@;
    let mut info = infos.remove(index);
    info.resolve_cycle_conflict(choice, calculated);
    infos.insert(index, info);
    assert(infos@ =~= before.update(index as int, info));
}

/// Taking in a result keeps the continuation base: the previous count
/// after it is the previous count before it (0 when none was recorded).
/// The current count becomes the count read when that is above the
/// current count, else the base plus the count read, unless that would
/// lower it, in which case it stays.  The capacity and the data file are
/// the result's; the first capacity is filled in only when none was
/// recorded; nothing else of the entry changes.
pub proof fn law_result_keeps_continuation_base(info: ChannelInfo, result: MatchResult)
    requires
        cycle_update_fits(info, result.cycle_count as nat),
    ensures
        ({
            let after = after_result(info, result);
            let p = info.previous_cycles.unwrap_or(0);
            let c = info.current_cycles.unwrap_or(0);
            let new = result.cycle_count as usize;
            &&& after.previous_cycles.unwrap_or(0) == p
            &&& after.previous_cycles is Some || after.previous_cycles == info.previous_cycles
            &&& (new > c ==> after.current_cycles == Some(new) && after.previous_cycles == Some(p))
            &&& (new <= c && p + new >= c ==> after.current_cycles == Some((p + new) as usize)
                && after.previous_cycles == info.previous_cycles)
            &&& (new <= c && p + new < c ==> after.current_cycles == info.current_cycles
                && after.previous_cycles == info.previous_cycles)
            &&& after.current_cycles.unwrap_or(0) >= c
            &&& after.current_capacity == Some(result.capacity)
            &&& after.form_path == Some(result.form_path)
            &&& after.initial_capacity == (if info.initial_capacity is Some {
                info.initial_capacity
            } else {
                result.first_capacity
            })
            &&& after.device == info.device && after.channel == info.channel
            &&& after.channel_prv == info.channel_prv && after.project_code == info.project_code
            &&& after.sample_person == info.sample_person && after.sample_model == info.sample_model
            &&& after.sample_id == info.sample_id && after.test_status == info.test_status
            &&& after.test_temperature == info.test_temperature
        }),
{
}

/// No two data files record the same channel.
pub open spec fn channels_distinct(forms: Seq<DataForm>) -> bool {
    forall|i: int, j: int|
        0 <= i < j < forms.len() ==> #[trigger] forms[i].channel_view() != #[trigger] forms[j].channel_view()
}

proof fn lemma_first_is_last(forms: Seq<DataForm>, ch: Seq<char>)
    requires
        channels_distinct(forms),
    ensures
        first_form_with(forms, ch) == last_form_with(forms, ch),
    decreases forms.len(),
{
    if forms.len() > 0 {
        let rest = forms.drop_last();
        assert(channels_distinct(rest)) by {
            assert forall|i: int, j: int| 0 <= i < j < rest.len() implies #[trigger] rest[i].channel_view()
                != #[trigger] rest[j].channel_view() by {
                assert(rest[i] == forms[i] && rest[j] == forms[j]);
            }
        }
        lemma_first_is_last(rest, ch);
        lemma_form_with_bounds(rest, ch);
        if forms.last().channel_view() == ch {
            if let Some(k) = first_form_with(rest, ch) {
                assert(rest[k] == forms[k]);
                assert(forms[k].channel_view() != forms[forms.len() - 1].channel_view());
            }
        }
    }
}

/// The two ways of matching channels to data files agree when no two
/// files of the device record the same channel: taking the first file
/// for a channel (`match_channels_by_scan`) or the last one
/// (`create_matching_tasks`) then plans the same reads.
pub proof fn law_matchings_agree_on_distinct_files(
    device: Seq<char>,
    actives: Seq<ChannelActive>,
    forms: Seq<DataForm>,
)
    requires
        channels_distinct(forms),
    ensures
        planned(device, actives, forms, true) == planned(device, actives, forms, false),
    decreases actives.len(),
{
    if actives.len() > 0 {
        law_matchings_agree_on_distinct_files(device, actives.drop_last(), forms);
        let a = actives.last();
        lemma_first_is_last(forms, a.channel@);
        lemma_first_is_last(forms, prv_or_na(a));
    }
}

} // verus!
