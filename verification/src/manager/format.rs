//! The categories of a channel in the managed table, as the tool shows them.
use crate::pattern::{group_of, group_text, regex_captures, regex_captures_spec};
use crate::data::format::TEMPERATURE_PATTERN;
use crate::text::{owned, same_text};
use vstd::prelude::*;

verus! {

/// Whether a channel is in a long-running test.
#[derive(Debug, Clone, Copy, PartialEq, Eq, Structural)]
pub enum TestStatus {
    Long,
    Offline,
}

impl TestStatus {
    /// The status a cell's text names: "长期" is a long-running test,
    /// anything else none.
    pub open spec fn from_spec(text: Seq<char>) -> TestStatus {
        if text == "长期"@ {
            TestStatus::Long
        } else {
            TestStatus::Offline
        }
    }

    pub fn from(text: &str) -> (r: TestStatus)
        ensures
            r == TestStatus::from_spec(text@),
    {
        if same_text(text, "长期") {
            TestStatus::Long
        } else {
            TestStatus::Offline
        }
    }

    /// Whether the channel is in a long-running test.
    pub fn is_long(&self) -> (r: bool)
        ensures
            r == (*self == TestStatus::Long),
    {
        match self {
            TestStatus::Long => true,
            TestStatus::Offline => false,
        }
    }

    pub open spec fn label(self) -> Seq<char> {
        match self {
            TestStatus::Long => "长期"@,
            TestStatus::Offline => "离线"@,
        }
    }

    /// The label the status is shown with.
    pub fn to_string(&self) -> (r: String)
        ensures
            r@ == self.label(),
    {
        match self {
            TestStatus::Long => owned("长期"),
            TestStatus::Offline => owned("离线"),
        }
    }
}

/// The temperature a channel is tested at.
#[derive(Debug, Clone, Copy, PartialEq, Eq, Structural)]
pub enum TestTemperature {
    T25,
    T35,
    T45,
    T55,
    Unknown,
}

impl TestTemperature {
    /// The temperature a matched text names.
    pub open spec fn from_label_spec(m: Seq<char>) -> TestTemperature {
        if m == "25℃"@ {
            TestTemperature::T25
        } else if m == "35℃"@ {
            TestTemperature::T35
        } else if m == "45℃"@ {
            TestTemperature::T45
        } else if m == "55℃"@ {
            TestTemperature::T55
        } else {
            TestTemperature::Unknown
        }
    }

    /// The temperature for the text that the temperature pattern found, if any.
    pub open spec fn from_match_spec(found: Option<Seq<char>>) -> TestTemperature {
        match found {
            Some(m) => TestTemperature::from_label_spec(m),
            None => TestTemperature::Unknown,
        }
    }

    /// The temperature of a cell: the first place where the temperature
    /// pattern matches decides it.
    pub open spec fn from_spec(text: Seq<char>) -> TestTemperature {
        TestTemperature::from_match_spec(
            group_text(regex_captures_spec(TEMPERATURE_PATTERN@, text), 0),
        )
    }

    /// The temperature for what the temperature pattern found in a cell.
    pub fn from_match(found: Option<&str>) -> (r: TestTemperature)
        ensures
            r == TestTemperature::from_match_spec(
                match found {
                    Some(m) => Some(m@),
                    None => None,
                },
            ),
    {
        match found {
            Some(m) => {
                if same_text(m, "25℃") {
                    TestTemperature::T25
                } else if same_text(m, "35℃") {
                    TestTemperature::T35
                } else if same_text(m, "45℃") {
                    TestTemperature::T45
                } else if same_text(m, "55℃") {
                    TestTemperature::T55
                } else {
                    TestTemperature::Unknown
                }
            },
            None => TestTemperature::Unknown,
        }
    }

    pub fn from(text: &str) -> (r: TestTemperature)
        ensures
            r == TestTemperature::from_spec(text@),
    {
        let caps = regex_captures(TEMPERATURE_PATTERN, text);
        let found = group_of(&caps, 0);
        match found {
            Some(m) => TestTemperature::from_match(Some(m.as_str())),
            None => TestTemperature::from_match(None),
        }
    }

    pub open spec fn label(self) -> Seq<char> {
        match self {
            TestTemperature::T25 => "25℃"@,
            TestTemperature::T35 => "35℃"@,
            TestTemperature::T45 => "45℃"@,
            TestTemperature::T55 => "55℃"@,
            TestTemperature::Unknown => "未设置"@,
        }
    }

    /// The label the temperature is shown with.
    pub fn to_string(&self) -> (r: String)
        ensures
            r@ == self.label(),
    {
        match self {
            TestTemperature::T25 => owned("25℃"),
            TestTemperature::T35 => owned("35℃"),
            TestTemperature::T45 => owned("45℃"),
            TestTemperature::T55 => owned("55℃"),
            TestTemperature::Unknown => owned("未设置"),
        }
    }
}

/// The model of a tested cell.
#[derive(Debug, Clone, Copy, PartialEq, Eq, Structural)]
pub enum SampleModel {
    H50,
    H65,
    H100,
    H150,
    H180,
    H280,
    S50,
    Na165,
    Na170,
    Unknown,
}

impl SampleModel {
    /// The model a cell's text names.
    pub open spec fn from_spec(text: Seq<char>) -> SampleModel {
        if text == "铝壳50"@ {
            SampleModel::H50
        } else if text == "65"@ {
            SampleModel::H65
        } else if text == "100"@ {
            SampleModel::H100
        } else if text == "150"@ {
            SampleModel::H150
        } else if text == "180"@ {
            SampleModel::H180
        } else if text == "280"@ {
            SampleModel::H280
        } else if text == "软包50"@ {
            SampleModel::S50
        } else if text == "钠电165"@ {
            SampleModel::Na165
        } else if text == "钠电170"@ {
            SampleModel::Na170
        } else {
            SampleModel::Unknown
        }
    }

    pub fn from(text: &str) -> (r: SampleModel)
        ensures
            r == SampleModel::from_spec(text@),
    {
        if same_text(text, "铝壳50") {
            SampleModel::H50
        } else if same_text(text, "65") {
            SampleModel::H65
        } else if same_text(text, "100") {
            SampleModel::H100
        } else if same_text(text, "150") {
            SampleModel::H150
        } else if same_text(text, "180") {
            SampleModel::H180
        } else if same_text(text, "280") {
            SampleModel::H280
        } else if same_text(text, "软包50") {
            SampleModel::S50
        } else if same_text(text, "钠电165") {
            SampleModel::Na165
        } else if same_text(text, "钠电170") {
            SampleModel::Na170
        } else {
            SampleModel::Unknown
        }
    }

    pub open spec fn label(self) -> Seq<char> {
        match self {
            SampleModel::H50 => "铝壳50"@,
            SampleModel::H65 => "铝壳65"@,
            SampleModel::H100 => "铝壳100"@,
            SampleModel::H150 => "铝壳150"@,
            SampleModel::H180 => "铝壳180"@,
            SampleModel::H280 => "铝壳280"@,
            SampleModel::S50 => "软包50"@,
            SampleModel::Na165 => "钠电165"@,
            SampleModel::Na170 => "钠电170"@,
            SampleModel::Unknown => "未设置"@,
        }
    }

    /// The label the model is shown with.
    pub fn to_string(&self) -> (r: String)
        ensures
            r@ == self.label(),
    {
        match self {
            SampleModel::H50 => owned("铝壳50"),
            SampleModel::H65 => owned("铝壳65"),
            SampleModel::H100 => owned("铝壳100"),
            SampleModel::H150 => owned("铝壳150"),
            SampleModel::H180 => owned("铝壳180"),
            SampleModel::H280 => owned("铝壳280"),
            SampleModel::S50 => owned("软包50"),
            SampleModel::Na165 => owned("钠电165"),
            SampleModel::Na170 => owned("钠电170"),
            SampleModel::Unknown => owned("未设置"),
        }
    }
}

/// Reading back the label of a test status gives the status again.
pub proof fn law_test_status_label_round_trip(status: TestStatus)
    ensures
        TestStatus::from_spec(status.label()) == status,
{
    reveal_strlit("长期");
    reveal_strlit("离线");
    assert("离线"@[0] != "长期"@[0]);
}

/// Reading back the label of a cell model gives the model again, for every
/// model but the aluminium-case ones of 65 to 280, whose labels ("铝壳65", ...)
/// are not among the texts a model is read from.
pub proof fn law_sample_model_label_round_trip(model: SampleModel)
    requires
        model != SampleModel::H65,
        model != SampleModel::H100,
        model != SampleModel::H150,
        model != SampleModel::H180,
        model != SampleModel::H280,
    ensures
        SampleModel::from_spec(model.label()) == model,
{
    reveal_strlit("铝壳50");
    reveal_strlit("65");
    reveal_strlit("100");
    reveal_strlit("150");
    reveal_strlit("180");
    reveal_strlit("280");
    reveal_strlit("软包50");
    reveal_strlit("钠电165");
    reveal_strlit("钠电170");
    reveal_strlit("未设置");
    let l = model.label();
    assert(l != "65"@ && l != "100"@ && l != "150"@ && l != "180"@ && l != "280"@) by {
        assert(l.len() != 2 || l[0] != '6');
        assert(l.len() != 3 || (l[0] != '1' && l[0] != '2'));
    }
    if model != SampleModel::H50 {
        assert(l != "铝壳50"@) by {
            assert(l.len() != 4 || l[0] != '铝');
        }
    }
    if model != SampleModel::S50 {
        assert(l != "软包50"@) by {
            assert(l.len() != 4 || l[0] != '软');
        }
    }
    if model != SampleModel::Na165 {
        assert(l != "钠电165"@) by {
            assert(l.len() != 5 || l[0] != '钠' || l[2] != '1' || l[3] != '6');
        }
    }
    if model != SampleModel::Na170 {
        assert(l != "钠电170"@) by {
            assert(l.len() != 5 || l[0] != '钠' || l[2] != '1' || l[3] != '7');
        }
    }
}

/// The label of a temperature, when it is what the temperature pattern
/// found in a cell, reads back as that temperature.
pub proof fn law_temperature_label_round_trip(temperature: TestTemperature)
    ensures
        TestTemperature::from_match_spec(Some(temperature.label())) == temperature,
{
    reveal_strlit("25℃");
    reveal_strlit("35℃");
    reveal_strlit("45℃");
    reveal_strlit("55℃");
    reveal_strlit("未设置");
    let l = temperature.label();
    assert(l.len() != 3 || l[0] != '2' || temperature == TestTemperature::T25);
    assert(l.len() != 3 || l[0] != '3' || temperature == TestTemperature::T35);
    assert(l.len() != 3 || l[0] != '4' || temperature == TestTemperature::T45);
    assert(l.len() != 3 || l[0] != '5' || temperature == TestTemperature::T55);
}

/// Each cell text that names a model names its own model: "铝壳50" the
/// 50 aluminium case, "65", "100", "150", "180" and "280" the aluminium
/// cases of those sizes, "软包50" the pouch cell, "钠电165" and "钠电170"
/// the sodium cells; any other text no model.
pub proof fn law_sample_model_texts(text: Seq<char>)
    ensures
        SampleModel::from_spec("铝壳50"@) == SampleModel::H50,
        SampleModel::from_spec("65"@) == SampleModel::H65,
        SampleModel::from_spec("100"@) == SampleModel::H100,
        SampleModel::from_spec("150"@) == SampleModel::H150,
        SampleModel::from_spec("180"@) == SampleModel::H180,
        SampleModel::from_spec("280"@) == SampleModel::H280,
        SampleModel::from_spec("软包50"@) == SampleModel::S50,
        SampleModel::from_spec("钠电165"@) == SampleModel::Na165,
        SampleModel::from_spec("钠电170"@) == SampleModel::Na170,
        text != "铝壳50"@ && text != "65"@ && text != "100"@ && text != "150"@ && text != "180"@
            && text != "280"@ && text != "软包50"@ && text != "钠电165"@ && text != "钠电170"@
            ==> SampleModel::from_spec(text) == SampleModel::Unknown,
{
    reveal_strlit("铝壳50");
    reveal_strlit("65");
    reveal_strlit("100");
    reveal_strlit("150");
    reveal_strlit("180");
    reveal_strlit("280");
    reveal_strlit("软包50");
    reveal_strlit("钠电165");
    reveal_strlit("钠电170");
    assert("65"@ != "铝壳50"@) by { assert("65"@.len() != "铝壳50"@.len()); }
    assert("100"@ != "铝壳50"@) by { assert("100"@.len() != "铝壳50"@.len()); }
    assert("100"@ != "65"@) by { assert("100"@.len() != "65"@.len()); }
    assert("150"@ != "100"@) by { assert("150"@[1] != "100"@[1]); }
    assert("150"@ != "铝壳50"@) by { assert("150"@.len() != "铝壳50"@.len()); }
    assert("150"@ != "65"@) by { assert("150"@.len() != "65"@.len()); }
    assert("180"@ != "100"@) by { assert("180"@[1] != "100"@[1]); }
    assert("180"@ != "150"@) by { assert("180"@[1] != "150"@[1]); }
    assert("180"@ != "铝壳50"@) by { assert("180"@.len() != "铝壳50"@.len()); }
    assert("180"@ != "65"@) by { assert("180"@.len() != "65"@.len()); }
    assert("280"@ != "100"@) by { assert("280"@[0] != "100"@[0]); }
    assert("280"@ != "150"@) by { assert("280"@[0] != "150"@[0]); }
    assert("280"@ != "180"@) by { assert("280"@[0] != "180"@[0]); }
    assert("280"@ != "铝壳50"@) by { assert("280"@.len() != "铝壳50"@.len()); }
    assert("280"@ != "65"@) by { assert("280"@.len() != "65"@.len()); }
    assert("软包50"@ != "铝壳50"@) by { assert("软包50"@[0] != "铝壳50"@[0]); }
    assert("软包50"@ != "65"@) by { assert("软包50"@.len() != "65"@.len()); }
    assert("软包50"@ != "100"@) by { assert("软包50"@.len() != "100"@.len()); }
    assert("软包50"@ != "150"@) by { assert("软包50"@.len() != "150"@.len()); }
    assert("软包50"@ != "180"@) by { assert("软包50"@.len() != "180"@.len()); }
    assert("软包50"@ != "280"@) by { assert("软包50"@.len() != "280"@.len()); }
    assert("钠电165"@ != "铝壳50"@) by { assert("钠电165"@.len() != "铝壳50"@.len()); }
    assert("钠电165"@ != "软包50"@) by { assert("钠电165"@.len() != "软包50"@.len()); }
    assert("钠电165"@ != "65"@) by { assert("钠电165"@.len() != "65"@.len()); }
    assert("钠电165"@ != "100"@) by { assert("钠电165"@.len() != "100"@.len()); }
    assert("钠电165"@ != "150"@) by { assert("钠电165"@.len() != "150"@.len()); }
    assert("钠电165"@ != "180"@) by { assert("钠电165"@.len() != "180"@.len()); }
    assert("钠电165"@ != "280"@) by { assert("钠电165"@.len() != "280"@.len()); }
    assert("钠电170"@ != "铝壳50"@) by { assert("钠电170"@.len() != "铝壳50"@.len()); }
    assert("钠电170"@ != "软包50"@) by { assert("钠电170"@.len() != "软包50"@.len()); }
    assert("钠电170"@ != "钠电165"@) by { assert("钠电170"@[3] != "钠电165"@[3]); }
    assert("钠电170"@ != "65"@) by { assert("钠电170"@.len() != "65"@.len()); }
    assert("钠电170"@ != "100"@) by { assert("钠电170"@.len() != "100"@.len()); }
    assert("钠电170"@ != "150"@) by { assert("钠电170"@.len() != "150"@.len()); }
    assert("钠电170"@ != "180"@) by { assert("钠电170"@.len() != "180"@.len()); }
    assert("钠电170"@ != "280"@) by { assert("钠电170"@.len() != "280"@.len()); }
}

} // verus!
