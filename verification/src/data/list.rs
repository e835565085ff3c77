//! A channel of the cycle-tracking sheet, as the library reads it.
use crate::data::format::{SampleModel, TestStatus, TestTemperature};
use crate::text::{decimal_digits, decimal_string, owned, push_repeat, repeat, saturating_sub};
use vstd::prelude::*;

verus! {

/// A measured capacity in mAh, held as the bit pattern of the `f32` that
/// the sheet or the data file gave (`f32::to_bits`).  The library only
/// stores and compares presence of capacities; arithmetic and formatting
/// of the value happen where floating point is available.
#[derive(Debug, Clone, Copy, PartialEq, Eq, Structural)]
pub struct Capacity {
    pub bits: u32,
}

/// One channel of the tracking sheet.
#[derive(Debug)]
pub struct ChannelInfo {
    pub device: String,
    pub channel: String,
    pub project_code: String,
    pub sample_person: String,
    pub sample_model: SampleModel,
    pub sample_id: String,
    pub test_status: TestStatus,
    pub test_temperature: TestTemperature,
    pub initial_capacity: Option<Capacity>,
    pub current_capacity: Option<Capacity>,
    pub previous_cycles: Option<usize>,
    pub current_cycles: Option<usize>,
}

/// The length of one DCR block: when the count read from a file falls
/// back below what was already counted since the last continuation, a
/// new block of this many cycles has begun.
pub const DCR_BLOCK: usize = 200;

/// The new (previous, current) cycle counts after reading `new` cycles
/// from a data file, given the counts `prev` and `cur` recorded so far
/// (absent counts read as 0).
pub open spec fn next_cycles(prev: nat, cur: nat, new: nat) -> (nat, nat) {
    if new > cur {
        (prev, new)
    } else if new > cur - prev {
        (prev, prev + new)
    } else {
        (prev + 200, prev + 200 + new)
    }
}

/// The arithmetic of `next_cycles` stays within `usize`.
pub open spec fn cycles_fit(prev: nat, cur: nat, new: nat) -> bool {
    new <= cur ==> if new > cur - prev {
        prev + new <= usize::MAX
    } else {
        prev + 200 + new <= usize::MAX
    }
}

impl ChannelInfo {
    /// Records a new current capacity.
    pub fn update_capacity(&mut self, new: Capacity)
        ensures
            *final(self) == (ChannelInfo { current_capacity: Some(new), ..*old(self) }),
    {
        self.current_capacity = Some(new);
    }

    /// Records the cycle count `new` read from a data file.  A count above
    /// the current one replaces it; a count above what was counted since
    /// the last continuation is added to the continued count; a smaller
    /// count starts a new DCR block of 200 cycles.
    pub fn update_cycles(&mut self, new: usize)
        requires
            old(self).previous_cycles.unwrap_or(0) <= old(self).current_cycles.unwrap_or(0),
            cycles_fit(
                old(self).previous_cycles.unwrap_or(0) as nat,
                old(self).current_cycles.unwrap_or(0) as nat,
                new as nat,
            ),
        ensures
            ({
                let p = old(self).previous_cycles.unwrap_or(0);
                let c = old(self).current_cycles.unwrap_or(0);
                &&& new > c ==> final(self).previous_cycles == Some(p) && final(self).current_cycles
                    == Some(new)
                &&& new <= c && new > c - p ==> final(self).previous_cycles
                    == old(self).previous_cycles
                    && final(self).current_cycles == Some((p + new) as usize)
                &&& new <= c - p ==> final(self).previous_cycles == Some((p + 200) as usize)
                    && final(self).current_cycles == Some((p + 200 + new) as usize)
                &&& final(self).current_cycles == Some(
                    next_cycles(p as nat, c as nat, new as nat).1 as usize,
                )
            }),
            *final(self) == (ChannelInfo {
                previous_cycles: final(self).previous_cycles,
                current_cycles: final(self).current_cycles,
                ..*old(self)
            }),
            final(self).previous_cycles.unwrap_or(0) <= final(self).current_cycles.unwrap_or(0),
    {
        let prev = self.previous_cycles.unwrap_or(0);
        let curt = self.current_cycles.unwrap_or(0);
        let cont = curt - prev;
        if new > curt {
            self.current_cycles = Some(new);
            self.previous_cycles = Some(prev);
        } else {
            if new > cont {
                self.current_cycles = Some(prev + new);
            } else {
                self.previous_cycles = Some(prev + DCR_BLOCK);
                self.current_cycles = Some(prev + DCR_BLOCK + new);
            }
        }
    }
}

/// Reading cycle counts keeps the continued count at or below the current
/// count: from any recorded pair with `prev <= cur`, the pair after
/// `next_cycles` again has its first part at or below its second, and the
/// current count is never below the count just read.
pub proof fn law_cycle_counts_stay_ordered(prev: nat, cur: nat, new: nat)
    requires
        prev <= cur,
    ensures
        next_cycles(prev, cur, new).0 <= next_cycles(prev, cur, new).1,
        next_cycles(prev, cur, new).1 >= new,
{
}

/// The top border of a channel card.
pub const CARD_TOP: &'static str = "\n┌─────────────────────────────────────────────────────┐";

/// The line under the title of a channel card.
pub const CARD_RULE: &'static str = "\n├─────────────────────────────────────────────────────┤";

/// The bottom border of a channel card.
pub const CARD_BOTTOM: &'static str = "\n└─────────────────────────────────────────────────────┘";

/// `s` followed by spaces up to `n` characters.
pub open spec fn pad_right(s: Seq<char>, n: nat) -> Seq<char> {
    s + repeat(' ', saturating_sub(n, s.len()))
}

/// `s` centred in `n` characters; the odd space goes to the right.
pub open spec fn pad_centre(s: Seq<char>, n: nat) -> Seq<char> {
    let p = saturating_sub(n, s.len());
    repeat(' ', p / 2) + s + repeat(' ', (p - p / 2) as nat)
}

/// A cycle count on a card: `N 次`, or `N/A`.
pub open spec fn card_cycles(c: Option<usize>) -> Seq<char> {
    match c {
        Some(v) => decimal_digits(v as nat) + " 次"@,
        None => "N/A"@,
    }
}

/// One line of a card: its prefix, its body, and the closing bar.
pub open spec fn card_line(prefix: Seq<char>, body: Seq<char>) -> Seq<char> {
    prefix + body + " │"@
}

/// A card that shows one channel; the capacities are given as they are
/// to be shown (`12.34 mAh`, or `N/A`).  Texts are padded to their
/// column by character count; the categories are written unpadded.
pub open spec fn card(info: ChannelInfo, initial: Seq<char>, current: Seq<char>) -> Seq<char> {
    CARD_TOP@ + card_line("\n│ "@, pad_centre("通道信息"@, 47)) + CARD_RULE@ + card_line(
        "\n│ 设备: "@,
        pad_right(info.device@, 40),
    ) + card_line("\n│ 通道: "@, pad_right(info.channel@, 40)) + card_line(
        "\n│ 项目编号: "@,
        pad_right(info.project_code@, 37),
    ) + card_line("\n│ 样品负责人: "@, pad_right(info.sample_person@, 35)) + card_line(
        "\n│ 样品型号: "@,
        info.sample_model.label(),
    ) + card_line("\n│ 样品ID: "@, pad_right(info.sample_id@, 39)) + card_line(
        "\n│ 测试状态: "@,
        info.test_status.label(),
    ) + card_line("\n│ 测试温度: "@, info.test_temperature.label()) + card_line(
        "\n│ 初始容量: "@,
        pad_right(initial, 37),
    ) + card_line("\n│ 当前容量: "@, pad_right(current, 37)) + card_line(
        "\n│ 先前循环: "@,
        pad_right(card_cycles(info.previous_cycles), 35),
    ) + card_line("\n│ 当前循环: "@, pad_right(card_cycles(info.current_cycles), 37)) + CARD_BOTTOM@
}

/// Appends a card line whose body is `s` padded to `n` characters.
fn push_padded_line(out: &mut String, prefix: &str, s: &str, n: usize)
    ensures
        final(out)@ == old(out)@ + card_line(prefix@, pad_right(s@, n as nat)),
{
    let ghost start = out@;
    let len = s.unicode_len();
    out.append(prefix);
    out.append(s);
    let p = if n >= len {
        n - len
    } else {
        0
    };
    push_repeat(out, ' ', p);
    out.append(" │");
    assert(out@ =~= start + card_line(prefix@, pad_right(s@, n as nat)));
}

/// Appends a card line whose body is `s`.
fn push_line(out: &mut String, prefix: &str, s: &str)
    ensures
        final(out)@ == old(out)@ + card_line(prefix@, s@),
{
    let ghost start = out@;
    out.append(prefix);
    out.append(s);
    out.append(" │");
    assert(out@ =~= start + card_line(prefix@, s@));
}

/// Appends the title line of a card.
fn push_title(out: &mut String)
    ensures
        final(out)@ == old(out)@ + card_line("\n│ "@, pad_centre("通道信息"@, 47)),
{
    let ghost start = out@;
    let title = "通道信息";
    let tl = title.unicode_len();
    let p = if 47 >= tl {
        47 - tl
    } else {
        0
    };
    out.append("\n│ ");
    push_repeat(out, ' ', p / 2);
    out.append(title);
    push_repeat(out, ' ', p - p / 2);
    out.append(" │");
    assert(out@ =~= start + card_line("\n│ "@, pad_centre("通道信息"@, 47)));
}

fn cycles_string(c: Option<usize>) -> (r: String)
    ensures
        r@ == card_cycles(c),
{
    match c {
        Some(v) => {
            let mut s = decimal_string(v as u64);
            s.append(" 次");
            s
        },
        None => owned("N/A"),
    }
}

impl ChannelInfo {
    /// The card that shows this channel, with the capacities as they are
    /// to be shown.
    pub fn to_card(&self, initial_capacity: &str, current_capacity: &str) -> (r: String)
        ensures
            r@ == card(*self, initial_capacity@, current_capacity@),
    {
        let mut out = owned(CARD_TOP);
        push_title(&mut out);
        out.append(CARD_RULE);
        push_padded_line(&mut out, "\n│ 设备: ", self.device.as_str(), 40);
        push_padded_line(&mut out, "\n│ 通道: ", self.channel.as_str(), 40);
        push_padded_line(&mut out, "\n│ 项目编号: ", self.project_code.as_str(), 37);
        push_padded_line(&mut out, "\n│ 样品负责人: ", self.sample_person.as_str(), 35);
        let model = self.sample_model.to_string();
        push_line(&mut out, "\n│ 样品型号: ", model.as_str());
        push_padded_line(&mut out, "\n│ 样品ID: ", self.sample_id.as_str(), 39);
        let status = self.test_status.to_string();
        push_line(&mut out, "\n│ 测试状态: ", status.as_str());
        let temperature = self.test_temperature.to_string();
        push_line(&mut out, "\n│ 测试温度: ", temperature.as_str());
        push_padded_line(&mut out, "\n│ 初始容量: ", initial_capacity, 37);
        push_padded_line(&mut out, "\n│ 当前容量: ", current_capacity, 37);
        let previous = cycles_string(self.previous_cycles);
        push_padded_line(&mut out, "\n│ 先前循环: ", previous.as_str(), 35);
        let current = cycles_string(self.current_cycles);
        push_padded_line(&mut out, "\n│ 当前循环: ", current.as_str(), 37);
        out.append(CARD_BOTTOM);
        out
    }
}

} // verus!
