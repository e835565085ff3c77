//! The table of channels the tool manages, and how data read from the
//! cyclers updates it.
use crate::data::list::Capacity;
use crate::manager::format::{SampleModel, TestStatus, TestTemperature};
use crate::text::{owned, same_text};
use vstd::prelude::*;

verus! {

/// One channel of the managed table.
#[derive(Debug)]
pub struct ChannelInfo {
    pub device: String,
    pub channel: String,
    pub channel_prv: Option<String>,
    pub project_code: String,
    pub sample_person: Option<String>,
    pub sample_model: SampleModel,
    pub sample_id: String,
    pub test_status: TestStatus,
    pub test_temperature: TestTemperature,
    pub initial_capacity: Option<Capacity>,
    pub current_capacity: Option<Capacity>,
    pub previous_cycles: Option<usize>,
    pub current_cycles: Option<usize>,
    pub form_path: Option<String>,
}

/// A channel whose data is to be collected: a long-running test with a
/// project code.
#[derive(Debug)]
pub struct ChannelActive {
    pub device: String,
    pub channel: String,
    pub channel_prv: Option<String>,
    /// No initial capacity is recorded yet, so the first cycle is read too.
    pub first_run: bool,
}

/// What the user answered when a cycle count would have gone down.
#[derive(Debug, Clone, Copy, PartialEq, Eq, Structural)]
pub enum DialogResult {
    /// Leave the counts as they are.
    Cancel,
    /// Take the computed count anyway.
    Ignore,
    /// Take the count the user typed.
    Confirm(usize),
}

/// The outcome of recording a new cycle count.
#[derive(Debug, Clone, Copy, PartialEq, Eq, Structural)]
pub enum CycleUpdate {
    /// The counts were updated.
    Applied,
    /// The continued count `calculated` is below the recorded `current`
    /// one; nothing changed, and the user must be asked.
    NeedsConfirmation { current: usize, calculated: usize },
}

/// A position, widened to an integer.
pub open spec fn as_position(o: Option<usize>) -> Option<int> {
    match o {
        Some(i) => Some(i as int),
        None => None,
    }
}

/// The channel that `info` makes active, if any.
pub open spec fn active_spec(info: ChannelInfo) -> Option<ChannelActive> {
    if info.test_status == TestStatus::Long && info.project_code@.len() > 0 {
        Some(
            ChannelActive {
                device: info.device,
                channel: info.channel,
                channel_prv: info.channel_prv,
                first_run: info.initial_capacity is None,
            },
        )
    } else {
        None
    }
}

/// Recording `new` cycles needs `previous + new` when `new` is not above the current count.
pub open spec fn cycle_update_fits(info: ChannelInfo, new: nat) -> bool {
    new <= info.current_cycles.unwrap_or(0) ==> info.previous_cycles.unwrap_or(0) + new
        <= usize::MAX
}

/// `info` is the entry for `channel` of `device`: the device matches and
/// the channel is its current or its previous channel.
pub open spec fn names_channel(info: ChannelInfo, device: Seq<char>, channel: Seq<char>) -> bool {
    &&& info.device@ == device
    &&& (info.channel@ == channel || (info.channel_prv matches Some(p) && p@ == channel))
}

/// The first entry of `infos` for `channel` of `device`.
pub open spec fn find_spec(infos: Seq<ChannelInfo>, device: Seq<char>, channel: Seq<char>) -> Option<
    int,
>
    decreases infos.len(),
{
    if infos.len() == 0 {
        None
    } else {
        match find_spec(infos.drop_last(), device, channel) {
            Some(i) => Some(i),
            None => if names_channel(infos.last(), device, channel) {
                Some(infos.len() - 1)
            } else {
                None
            },
        }
    }
}

proof fn lemma_find_spec(infos: Seq<ChannelInfo>, device: Seq<char>, channel: Seq<char>)
    ensures
        match find_spec(infos, device, channel) {
            Some(i) => 0 <= i < infos.len() && names_channel(infos[i], device, channel) && forall|
                j: int,
            | 0 <= j < i ==> !names_channel(#[trigger] infos[j], device, channel),
            None => forall|j: int|
                0 <= j < infos.len() ==> !names_channel(#[trigger] infos[j], device, channel),
        },
    decreases infos.len(),
{
    if infos.len() > 0 {
        lemma_find_spec(infos.drop_last(), device, channel);
        assert forall|j: int| 0 <= j < infos.len() - 1 implies infos[j] == infos.drop_last()[j] by {}
    }
}

impl DeepView for ChannelActive {
    type V = ChannelActive;

    open spec fn deep_view(&self) -> ChannelActive {
        *self
    }
}

impl ChannelActive {
    /// The channel to look for.
    pub fn get_channel(&self) -> (r: String)
        ensures
            r == self.channel,
    {
        self.channel.clone()
    }

    /// The previous channel to look for; `N/A` when there is none.
    pub fn get_channel_prv(&self) -> (r: String)
        ensures
            match self.channel_prv {
                Some(p) => r == p,
                None => r@ == "N/A"@,
            },
    {
        match &self.channel_prv {
            Some(p) => p.clone(),
            None => owned("N/A"),
        }
    }
}

impl ChannelInfo {
    /// The channel to collect data for, when this is a long-running test
    /// with a project code.
    pub fn get_active(&self) -> (r: Option<ChannelActive>)
        ensures
            r == active_spec(*self),
    {
        if self.test_status.is_long() && !self.project_code.as_str().is_empty() {
            let channel_prv = match &self.channel_prv {
                Some(p) => Some(p.clone()),
                None => None,
            };
            Some(
                ChannelActive {
                    device: self.device.clone(),
                    channel: self.channel.clone(),
                    channel_prv,
                    first_run: self.initial_capacity.is_none(),
                },
            )
        } else {
            None
        }
    }

    /// The device of the channel.
    pub fn get_device(&self) -> (r: String)
        ensures
            r == self.device,
    {
        self.device.clone()
    }

    /// Records the first capacity ever measured; a recorded one is kept.
    pub fn update_initial_capacity(&mut self, capacity: Capacity)
        ensures
            *final(self) == (ChannelInfo {
                initial_capacity: if old(self).initial_capacity is None {
                    Some(capacity)
                } else {
                    old(self).initial_capacity
                },
                ..*old(self)
            }),
    {
        if self.initial_capacity.is_none() {
            self.initial_capacity = Some(capacity);
        }
    }

    /// Records a new current capacity.
    pub fn update_capacity(&mut self, new: Capacity)
        ensures
            *final(self) == (ChannelInfo { current_capacity: Some(new), ..*old(self) }),
    {
        self.current_capacity = Some(new);
    }

    /// Records the data file the channel's data came from.
    pub fn update_form_path(&mut self, path: String)
        ensures
            *final(self) == (ChannelInfo { form_path: Some(path), ..*old(self) }),
    {
        self.form_path = Some(path);
    }

    /// Records the cycle count `new` read from a data file.  A count above
    /// the current one replaces it.  Otherwise the count continues the
    /// previous one (`previous + new`); when that would be below the
    /// current count, nothing changes and the user has to be asked.
    pub fn update_cycles(&mut self, new: usize) -> (r: CycleUpdate)
        requires
            cycle_update_fits(*old(self), new as nat),
        ensures
            ({
                let p = old(self).previous_cycles.unwrap_or(0);
                let c = old(self).current_cycles.unwrap_or(0);
                if new > c {
                    &&& r == CycleUpdate::Applied
                    &&& *final(self) == (ChannelInfo {
                        previous_cycles: Some(p),
                        current_cycles: Some(new),
                        ..*old(self)
                    })
                } else if p + new < c {
                    &&& r == (CycleUpdate::NeedsConfirmation {
                        current: c,
                        calculated: (p + new) as usize,
                    })
                    &&& *final(self) == *old(self)
                } else {
                    &&& r == CycleUpdate::Applied
                    &&& *final(self) == (ChannelInfo {
                        current_cycles: Some((p + new) as usize),
                        ..*old(self)
                    })
                }
            }),
    {
        let prev = self.previous_cycles.unwrap_or(0);
        let curt = self.current_cycles.unwrap_or(0);
        if new > curt {
            self.current_cycles = Some(new);
            self.previous_cycles = Some(prev);
            CycleUpdate::Applied
        } else {
            let new_total = prev + new;
            if new_total < curt {
                CycleUpdate::NeedsConfirmation { current: curt, calculated: new_total }
            } else {
                self.current_cycles = Some(new_total);
                CycleUpdate::Applied
            }
        }
    }

    /// Whether recording `new` cycles stays within `usize`.
    pub fn can_record_cycles(&self, new: usize) -> (r: bool)
        ensures
            r == cycle_update_fits(*self, new as nat),
    {
        let prev = self.previous_cycles.unwrap_or(0);
        let curt = self.current_cycles.unwrap_or(0);
        new > curt || prev <= usize::MAX - new
    }

    /// Settles a cycle count that would have gone down, as the user chose:
    /// keep the counts, take the computed count `calculated`, or take the
    /// count the user typed.
    pub fn resolve_cycle_conflict(&mut self, choice: DialogResult, calculated: usize)
        ensures
            match choice {
                DialogResult::Cancel => *final(self) == *old(self),
                DialogResult::Ignore => *final(self) == (ChannelInfo {
                    current_cycles: Some(calculated),
                    ..*old(self)
                }),
                DialogResult::Confirm(actual) => *final(self) == (ChannelInfo {
                    current_cycles: Some(actual),
                    ..*old(self)
                }),
            },
    {
        match choice {
            DialogResult::Cancel => {},
            DialogResult::Ignore => {
                self.current_cycles = Some(calculated);
            },
            DialogResult::Confirm(actual) => {
                self.current_cycles = Some(actual);
            },
        }
    }
}

/// Whether `info` is the entry for `channel` of `device`.
pub fn is_entry_for(info: &ChannelInfo, device: &str, channel: &str) -> (r: bool)
    ensures
        r == names_channel(*info, device@, channel@),
{
    if !same_text(info.device.as_str(), device) {
        return false;
    }
    if same_text(info.channel.as_str(), channel) {
        return true;
    }
    match &info.channel_prv {
        Some(p) => same_text(p.as_str(), channel),
        None => false,
    }
}

/// The position of the first entry for `channel` of `device`: the device
/// matches and the channel is the entry's current or previous channel.
pub fn find_channel_info_index(infos: &Vec<ChannelInfo>, device: &str, channel: &str) -> (r:
    Option<usize>)
    ensures
        match r {
            Some(i) => i < infos.len() && names_channel(infos@[i as int], device@, channel@)
                && forall|j: int|
                0 <= j < i ==> !names_channel(#[trigger] infos@[j], device@, channel@),
            None => forall|j: int|
                0 <= j < infos.len() ==> !names_channel(#[trigger] infos@[j], device@, channel@),
        },
        as_position(r) == find_spec(infos@, device@, channel@),
{
    let mut i: usize = 0;
    while i < infos.len()
        invariant
            i <= infos.len(),
            forall|j: int| 0 <= j < i ==> !names_channel(#[trigger] infos@[j], device@, channel@),
        decreases infos.len() - i,
    {
        if is_entry_for(&infos[i], device, channel) {
            proof {
                lemma_find_spec(infos@, device@, channel@);
            }
            return Some(i);
        }
        i = i + 1;
    }
    proof {
        lemma_find_spec(infos@, device@, channel@);
    }
    None
}

/// A cycle update that goes through without asking never lowers the
/// recorded cycle count, and it keeps the previous count at or below the
/// current one when it was so before.
pub proof fn law_applied_update_never_lowers(before: ChannelInfo, after: ChannelInfo, new: usize)
    requires
        before.previous_cycles.unwrap_or(0) <= before.current_cycles.unwrap_or(0),
        ({
            let p = before.previous_cycles.unwrap_or(0);
            let c = before.current_cycles.unwrap_or(0);
            if new > c {
                after == (ChannelInfo {
                    previous_cycles: Some(p),
                    current_cycles: Some(new),
                    ..before
                })
            } else {
                p + new >= c && p + new <= usize::MAX && after == (ChannelInfo {
                    current_cycles: Some((p + new) as usize),
                    ..before
                })
            }
        }),
    ensures
        after.current_cycles.unwrap_or(0) >= before.current_cycles.unwrap_or(0),
        after.current_cycles.unwrap_or(0) >= new,
        after.previous_cycles.unwrap_or(0) <= after.current_cycles.unwrap_or(0),
{
}

} // verus!
