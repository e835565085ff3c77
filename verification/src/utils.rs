//! The configuration of one test computer: its name and the names of
//! its channels.
use crate::text::{chars_of, concatenate, decimal_digits, decimal_string, is_ascii_digit, owned};
use vstd::prelude::*;

verus! {

/// May appear in a channel name: an ASCII digit or a dash.
pub open spec fn is_channel_name_char(c: char) -> bool {
    is_ascii_digit(c) || c == '-'
}

/// `s` holds exactly one dash, with something on either side of it, as
/// `XXX-XXX` does: splitting at `-` gives two non-empty parts.
pub open spec fn has_two_parts(s: Seq<char>) -> bool {
    exists|k: int|
        0 < k < s.len() - 1 && s[k] == '-' && forall|j: int|
            0 <= j < s.len() && j != k ==> #[trigger] s[j] != '-'
}

/// What is wrong with a channel name.
#[derive(Debug, Clone, Copy, PartialEq, Eq, Structural)]
pub enum NameFault {
    /// A character other than a digit or a dash.
    BadCharacters,
    /// Not two non-empty parts around a single dash.
    BadShape,
}

/// The first fault of a channel name, checked in the order above.
pub open spec fn name_fault(s: Seq<char>) -> Option<NameFault> {
    if !(forall|i: int| 0 <= i < s.len() ==> is_channel_name_char(#[trigger] s[i])) {
        Some(NameFault::BadCharacters)
    } else if !has_two_parts(s) {
        Some(NameFault::BadShape)
    } else {
        None
    }
}

/// The first channel name, from position `i` on, that has a fault.
pub open spec fn first_fault_from(names: Seq<Seq<char>>, i: nat) -> Option<(int, NameFault)>
    decreases names.len() - i,
{
    if i >= names.len() {
        None
    } else {
        match name_fault(names[i as int]) {
            Some(f) => Some((i as int, f)),
            None => first_fault_from(names, i + 1),
        }
    }
}

/// A configuration is valid when its channel count is the number of its
/// channel names and every name has the form `XXX-XXX` in digits.
pub open spec fn config_ok(count: u32, names: Seq<Seq<char>>) -> bool {
    count as int == names.len() && first_fault_from(names, 0) is None
}

/// Why a configuration is refused.
#[derive(Debug)]
pub enum ConfigError {
    /// The channel count differs from the number of channel names.
    ChannelCountMismatch { count: u32, names: usize },
    /// A channel name holds something other than digits and dashes.
    InvalidCharacters(String),
    /// A channel name is not of the form `XXX-XXX`.
    InvalidFormat(String),
}

/// `e` is the error that validating a configuration with this channel
/// count and these names reports: the count is checked first, then the
/// names in order.
pub open spec fn config_error(count: u32, names: Seq<Seq<char>>, e: ConfigError) -> bool {
    match e {
        ConfigError::ChannelCountMismatch { count: c, names: n } => c == count && n as int
            == names.len() && count as int != names.len(),
        ConfigError::InvalidCharacters(name) => {
            &&& count as int == names.len()
            &&& first_fault_from(names, 0) matches Some((i, f))
            &&& f == NameFault::BadCharacters
            &&& name@ == names[i]
        },
        ConfigError::InvalidFormat(name) => {
            &&& count as int == names.len()
            &&& first_fault_from(names, 0) matches Some((i, f))
            &&& f == NameFault::BadShape
            &&& name@ == names[i]
        },
    }
}

/// The name of channel `index`: only an index below the channel count is
/// looked up.
pub open spec fn channel_name_spec(count: u32, names: Seq<Seq<char>>, index: u32) -> Option<
    Seq<char>,
> {
    if index < count && index < names.len() {
        Some(names[index as int])
    } else {
        None
    }
}

impl ConfigError {
    /// The message the error is reported with.
    pub fn message(&self) -> (r: String)
        ensures
            r@ == match self {
                ConfigError::ChannelCountMismatch { count, names } => "通道数不匹配: 配置的通道数为 "@
                    + decimal_digits(*count as nat) + "，但提供的通道名数量为 "@ + decimal_digits(
                    *names as nat,
                ),
                ConfigError::InvalidCharacters(name) => "通道名格式错误，只能包含数字和破折号: "@ + name@,
                ConfigError::InvalidFormat(name) => "通道名格式错误，必须是 XXX-XXX 格式: "@ + name@,
            },
    {
        match self {
            ConfigError::ChannelCountMismatch { count, names } => {
                let mut r = owned("通道数不匹配: 配置的通道数为 ");
                let c = decimal_string(*count as u64);
                r.append(c.as_str());
                r.append("，但提供的通道名数量为 ");
                let n = decimal_string(*names as u64);
                r.append(n.as_str());
                r
            },
            ConfigError::InvalidCharacters(name) => concatenate(
                "通道名格式错误，只能包含数字和破折号: ",
                name.as_str(),
            ),
            ConfigError::InvalidFormat(name) => concatenate(
                "通道名格式错误，必须是 XXX-XXX 格式: ",
                name.as_str(),
            ),
        }
    }
}

/// Checks one channel name.
pub fn check_channel_name(name: &str) -> (r: Option<NameFault>)
    ensures
        r == name_fault(name@),
{
    let v = chars_of(name);
    let n = v.len();
    let mut i: usize = 0;
    while i < n
        invariant
            v@ == name@,
            n == v.len(),
            i <= n,
            forall|j: int| 0 <= j < i ==> is_channel_name_char(#[trigger] name@[j]),
        decreases n - i,
    {
        let c = v[i];
        if !(('0' <= c && c <= '9') || c == '-') {
            assert(!is_channel_name_char(name@[i as int]));
            return Some(NameFault::BadCharacters);
        }
        i = i + 1;
    }
    // Count the dashes, keeping where the first two are.
    let mut dashes: usize = 0;
    let mut first: usize = 0;
    let mut second: usize = 0;
    let mut i: usize = 0;
    while i < n
        invariant
            v@ == name@,
            n == v.len(),
            i <= n,
            dashes <= 2,
            dashes == 0 ==> forall|j: int| 0 <= j < i ==> #[trigger] name@[j] != '-',
            dashes == 1 ==> first < i && name@[first as int] == '-' && forall|j: int|
                0 <= j < i && j != first ==> #[trigger] name@[j] != '-',
            dashes == 2 ==> first < second < n && name@[first as int] == '-' && name@[second as int]
                == '-',
        decreases n - i,
    {
        if v[i] == '-' {
            if dashes == 0 {
                first = i;
                dashes = 1;
            } else if dashes == 1 {
                second = i;
                dashes = 2;
            }
        }
        i = i + 1;
    }
    if dashes == 1 && 0 < first && first + 1 < n {
        assert(has_two_parts(name@)) by {
            assert(0 < first < name@.len() - 1);
        }
        None
    } else {
        assert(!has_two_parts(name@)) by {
            if has_two_parts(name@) {
                let k = choose|k: int|
                    0 < k < name@.len() - 1 && name@[k] == '-' && forall|j: int|
                        0 <= j < name@.len() && j != k ==> #[trigger] name@[j] != '-';
                if dashes == 0 {
                    assert(name@[k] != '-');
                } else if dashes == 1 {
                    assert(k == first);
                } else {
                    if k != first {
                        assert(name@[first as int] != '-');
                    } else {
                        assert(name@[second as int] != '-');
                    }
                }
            }
        }
        Some(NameFault::BadShape)
    }
}

/// The configuration of one test computer.
#[derive(Debug, Clone)]
pub struct DeviceConfig {
    /// The computer's name, `DX-XX`.
    pub computer_name: String,
    /// The number of channels of the device.
    pub channel_count: u32,
    /// The channel names, `XXX-XXX` in digits.
    pub channel_names: Vec<String>,
}

impl DeviceConfig {
    /// The channel names as character sequences.
    pub open spec fn names(&self) -> Seq<Seq<char>> {
        self.channel_names.deep_view()
    }

    /// A configuration with these names, its channel count set to their number.
    pub fn new(computer_name: String, channel_names: Vec<String>) -> (r: DeviceConfig)
        ensures
            r.computer_name == computer_name,
            r.channel_names == channel_names,
            r.channel_count == channel_names.len() as u32,
    {
        let channel_count = channel_names.len() as u32;
        DeviceConfig { computer_name, channel_count, channel_names }
    }

    /// The same configuration under another computer name; the channel
    /// count is set to the number of channel names.
    pub fn with_computer_name(self, computer_name: String) -> (r: DeviceConfig)
        ensures
            r.computer_name == computer_name,
            r.channel_names == self.channel_names,
            r.channel_count == self.channel_names.len() as u32,
    {
        let mut s = self;
        s.computer_name = computer_name;
        s.channel_count = s.channel_names.len() as u32;
        s
    }

    /// The same configuration with other channel names, counted.
    pub fn with_channel_names(self, channel_names: Vec<String>) -> (r: DeviceConfig)
        ensures
            r.computer_name == self.computer_name,
            r.channel_names == channel_names,
            r.channel_count == channel_names.len() as u32,
    {
        let mut s = self;
        s.channel_names = channel_names;
        s.channel_count = s.channel_names.len() as u32;
        s
    }

    /// Appends a channel name and counts the names again.
    pub fn add_channel_name(&mut self, channel_name: String)
        ensures
            final(self).computer_name == old(self).computer_name,
            final(self).channel_names@ == old(self).channel_names@.push(channel_name),
            final(self).channel_count == final(self).channel_names.len() as u32,
    {
        self.channel_names.push(channel_name);
        self.channel_count = self.channel_names.len() as u32;
    }

    /// Checks that the channel count matches the names and that every
    /// name is `XXX-XXX` in digits; the first failing check is reported.
    pub fn validate(&self) -> (r: Result<(), ConfigError>)
        ensures
            match r {
                Ok(()) => config_ok(self.channel_count, self.names()),
                Err(e) => !config_ok(self.channel_count, self.names()) && config_error(
                    self.channel_count,
                    self.names(),
                    e,
                ),
            },
    {
        if self.channel_count as usize != self.channel_names.len() {
            return Err(
                ConfigError::ChannelCountMismatch {
                    count: self.channel_count,
                    names: self.channel_names.len(),
                },
            );
        }
        let ghost names = self.names();
        let mut i: usize = 0;
        while i < self.channel_names.len()
            invariant
                names == self.names(),
                names.len() == self.channel_names.len(),
                self.channel_count as int == self.channel_names.len(),
                i <= self.channel_names.len(),
                first_fault_from(names, 0) == first_fault_from(names, i as nat),
            decreases self.channel_names.len() - i,
        {
            let name = &self.channel_names[i];
            assert(name@ == names[i as int]);
            match check_channel_name(name.as_str()) {
                Some(NameFault::BadCharacters) => {
                    return Err(ConfigError::InvalidCharacters(name.clone()));
                },
                Some(NameFault::BadShape) => {
                    return Err(ConfigError::InvalidFormat(name.clone()));
                },
                None => {},
            }
            i = i + 1;
        }
        Ok(())
    }

    /// The name of channel `channel_index`, when the index is below the
    /// channel count and names a channel.
    pub fn get_channel_name(&self, channel_index: u32) -> (r: Option<&str>)
        ensures
            match channel_name_spec(self.channel_count, self.names(), channel_index) {
                Some(n) => r matches Some(s) && s@ == n,
                None => r is None,
            },
    {
        if channel_index < self.channel_count {
            if (channel_index as usize) < self.channel_names.len() {
                Some(self.channel_names[channel_index as usize].as_str())
            } else {
                None
            }
        } else {
            None
        }
    }
}

/// Builds a configuration step by step: computer name `DX-01` and no
/// channels to begin with.
pub struct ConfigBuilder {
    computer_name: String,
    channel_names: Vec<String>,
}

impl ConfigBuilder {
    /// The computer name built so far.
    pub closed spec fn name_view(&self) -> Seq<char> {
        self.computer_name@
    }

    /// The channel names added so far, in order.
    pub closed spec fn names_view(&self) -> Seq<Seq<char>> {
        self.channel_names.deep_view()
    }

    pub fn new() -> (r: ConfigBuilder)
        ensures
            r.name_view() == "DX-01"@,
            r.names_view() == Seq::<Seq<char>>::empty(),
    {
        let r = ConfigBuilder { computer_name: owned("DX-01"), channel_names: Vec::new() };
        assert(r.channel_names.deep_view() =~= Seq::<Seq<char>>::empty());
        r
    }

    /// Sets the computer name.
    pub fn computer_name(self, name: &str) -> (r: ConfigBuilder)
        ensures
            r.name_view() == name@,
            r.names_view() == self.names_view(),
    {
        let mut s = self;
        s.computer_name = owned(name);
        s
    }

    /// Appends a channel name.
    pub fn add_channel(self, channel_name: &str) -> (r: ConfigBuilder)
        ensures
            r.name_view() == self.name_view(),
            r.names_view() == self.names_view().push(channel_name@),
    {
        let mut s = self;
        let ghost before = s.channel_names.deep_view();
        s.channel_names.push(owned(channel_name));
        assert(s.channel_names.deep_view() =~= before.push(channel_name@));
        s
    }

    /// The configuration built so far, when it validates.
    pub fn build(self) -> (r: Result<DeviceConfig, ConfigError>)
        ensures
            match r {
                Ok(c) => c.computer_name@ == self.name_view() && c.names() == self.names_view()
                    && c.channel_count == self.names_view().len() as u32 && config_ok(
                    c.channel_count,
                    c.names(),
                ),
                Err(e) => !config_ok(self.names_view().len() as u32, self.names_view())
                    && config_error(self.names_view().len() as u32, self.names_view(), e),
            },
    {
        let config = DeviceConfig::new(self.computer_name, self.channel_names);
        match config.validate() {
            Ok(()) => Ok(config),
            Err(e) => Err(e),
        }
    }
}

/// A configuration made from a list of names answers each index below
/// the number of names with the name at that index.
pub proof fn law_new_config_names_channels(names: Seq<Seq<char>>, index: u32)
    requires
        names.len() <= u32::MAX,
        index < names.len(),
    ensures
        channel_name_spec(names.len() as u32, names, index) == Some(names[index as int]),
{
}

} // verus!
