//! Telling from a data file's name which cycler wrote it and which unit
//! and channel it belongs to.
use crate::pattern::{
    anchor_excludes, anchored_literal, bar_free_from, captures_of, group_of, group_text, plain_run, regex_captures,
    regex_captures_spec,
};
use crate::text::concatenate;
use vstd::prelude::*;

verus! {

/// The battery cyclers whose exports this tool reads.
#[derive(Debug, Clone, Copy, PartialEq, Eq, Structural)]
pub enum Sources {
    Shenghong,
    Weichuang,
    Nebula,
}

/// Shenghong names: unit first, then channel.
pub const SHENGHONG_PATTERN1: &'static str = "^UN(\\d+)_CN(\\d+)_";

/// Shenghong names: channel first, then unit.
pub const SHENGHONG_PATTERN2: &'static str = "^CN(\\d+)_UN(\\d+)_";

/// Weichuang names: unit first, then channel.
pub const WEICHUANG_PATTERN1: &'static str = "^SN(\\d+)_Ch(\\d+)_";

/// Weichuang names: channel first, then unit.
pub const WEICHUANG_PATTERN2: &'static str = "^Ch(\\d+)_SN(\\d+)_";

/// Nebula names: unit, then channel.
pub const NEBULA_PATTERN: &'static str = "^([^_]+)_(\\d+)_";

/// The number of file-name rules.
pub const RULE_COUNT: usize = 5;

/// The pattern of rule `r`; rules are tried in this order.
pub open spec fn rule_pattern(r: int) -> Seq<char> {
    if r == 0 {
        SHENGHONG_PATTERN1@
    } else if r == 1 {
        SHENGHONG_PATTERN2@
    } else if r == 2 {
        WEICHUANG_PATTERN1@
    } else if r == 3 {
        WEICHUANG_PATTERN2@
    } else {
        NEBULA_PATTERN@
    }
}

/// The cycler that rule `r` recognises.
pub open spec fn rule_source(r: int) -> Sources {
    if r == 0 || r == 1 {
        Sources::Shenghong
    } else if r == 2 || r == 3 {
        Sources::Weichuang
    } else {
        Sources::Nebula
    }
}

/// The capture group that holds the unit under rule `r`.
pub open spec fn rule_unit_group(r: int) -> int {
    if r == 1 || r == 3 {
        2
    } else {
        1
    }
}

/// The capture group that holds the channel under rule `r`.
pub open spec fn rule_channel_group(r: int) -> int {
    if r == 1 || r == 3 {
        1
    } else {
        2
    }
}

/// The unit and channel texts that a captures result holds in the given groups.
pub open spec fn ids_spec(caps: Option<Seq<Option<Seq<char>>>>, unit_group: int, channel_group: int) -> Option<
    (Seq<char>, Seq<char>),
> {
    match (group_text(caps, unit_group), group_text(caps, channel_group)) {
        (Some(u), Some(c)) => Some((u, c)),
        _ => None,
    }
}

/// What the rules from `r` on make of a file name: the first rule whose
/// pattern matches decides the cycler, the unit and the channel.
pub open spec fn form_name_from_rule(name: Seq<char>, r: nat) -> Option<(Sources, Seq<char>, Seq<char>)>
    decreases 5 - r,
{
    if r >= 5 {
        None
    } else {
        match ids_spec(
            captures_of(rule_pattern(r as int), name),
            rule_unit_group(r as int),
            rule_channel_group(r as int),
        ) {
            Some((u, c)) => Some((rule_source(r as int), u, c)),
            None => form_name_from_rule(name, r + 1),
        }
    }
}

/// What a file name says of the file: cycler, unit, channel.
pub open spec fn form_name_spec(name: Seq<char>) -> Option<(Sources, Seq<char>, Seq<char>)> {
    form_name_from_rule(name, 0)
}

/// A file name that no rule recognises.
#[derive(Debug)]
pub enum ParseError {
    UnrecognizedFileName(String),
}

impl ParseError {
    /// The message the error is reported with.
    pub fn message(&self) -> (r: String)
        ensures
            match self {
                ParseError::UnrecognizedFileName(name) => r@ == "Unable to parse filename: "@
                    + name@,
            },
    {
        match self {
            ParseError::UnrecognizedFileName(name) => concatenate(
                "Unable to parse filename: ",
                name.as_str(),
            ),
        }
    }
}

/// Rule `r`: its pattern, cycler, unit group and channel group.
fn rule(r: usize) -> (out: (&'static str, Sources, usize, usize))
    requires
        r < 5,
    ensures
        out.0@ == rule_pattern(r as int),
        out.1 == rule_source(r as int),
        out.2 as int == rule_unit_group(r as int),
        out.3 as int == rule_channel_group(r as int),
{
    if r == 0 {
        (SHENGHONG_PATTERN1, Sources::Shenghong, 1, 2)
    } else if r == 1 {
        (SHENGHONG_PATTERN2, Sources::Shenghong, 2, 1)
    } else if r == 2 {
        (WEICHUANG_PATTERN1, Sources::Weichuang, 1, 2)
    } else if r == 3 {
        (WEICHUANG_PATTERN2, Sources::Weichuang, 2, 1)
    } else {
        (NEBULA_PATTERN, Sources::Nebula, 1, 2)
    }
}

/// The unit and channel that a captures result holds in the given groups.
pub fn ids_from_captures(caps: &Option<Vec<Option<String>>>, unit_group: usize, channel_group: usize) -> (r:
    Option<(String, String)>)
    ensures
        match ids_spec(caps.deep_view(), unit_group as int, channel_group as int) {
            Some((u, c)) => r matches Some((ru, rc)) && ru@ == u && rc@ == c,
            None => r is None,
        },
{
    let unit = group_of(caps, unit_group);
    let channel = group_of(caps, channel_group);
    match (unit, channel) {
        (Some(u), Some(c)) => Some((u, c)),
        _ => None,
    }
}

/// Reads cycler, unit and channel from a data file's name (its stem).
pub fn form_name(filename: &str) -> (r: Result<(Sources, String, String), ParseError>)
    ensures
        match r {
            Ok((s, u, c)) => form_name_spec(filename@) == Some((s, u@, c@)),
            Err(ParseError::UnrecognizedFileName(n)) => form_name_spec(filename@) is None && n@
                == filename@,
        },
{
    let mut r: usize = 0;
    while r < RULE_COUNT
        invariant
            r <= 5,
            form_name_spec(filename@) == form_name_from_rule(filename@, r as nat),
        decreases 5 - r,
    {
        let (pattern, source, unit_group, channel_group) = rule(r);
        let caps = regex_captures(pattern, filename);
        match ids_from_captures(&caps, unit_group, channel_group) {
            Some((unit, channel)) => {
                return Ok((source, unit, channel));
            },
            None => {},
        }
        r = r + 1;
    }
    Err(ParseError::UnrecognizedFileName(filename.to_owned()))
}

/// A file name made of the tag `t1`, the field `x`, `_`, the tag `t2`, the
/// field `y`, `_` and whatever `rest` follows.
pub open spec fn tagged_name(t1: Seq<char>, x: Seq<char>, t2: Seq<char>, y: Seq<char>, rest: Seq<char>) -> Seq<
    char,
> {
    t1 + x + "_"@ + t2 + y + "_"@ + rest
}

/// The first rules are anchored: each pattern starts with `^`, has no
/// alternation, and every match starts with the rule's tag.
proof fn lemma_rule_anchors()
    ensures
        forall|r: int|
            0 <= r < 4 ==> rule_pattern(r).len() > 2 && #[trigger] rule_pattern(r)[0] == '^'
                && bar_free_from(rule_pattern(r), 0),
        anchored_literal(rule_pattern(0)) == "UN"@,
        anchored_literal(rule_pattern(1)) == "CN"@,
        anchored_literal(rule_pattern(2)) == "SN"@,
        anchored_literal(rule_pattern(3)) == "Ch"@,
{
    reveal_strlit("^UN(\\d+)_CN(\\d+)_");
    reveal_strlit("^CN(\\d+)_UN(\\d+)_");
    reveal_strlit("^SN(\\d+)_Ch(\\d+)_");
    reveal_strlit("^Ch(\\d+)_SN(\\d+)_");
    reveal_strlit("UN");
    reveal_strlit("CN");
    reveal_strlit("SN");
    reveal_strlit("Ch");
    reveal_with_fuel(bar_free_from, 20);
    reveal_with_fuel(plain_run, 4);
    assert(anchored_literal(rule_pattern(0)) =~= "UN"@);
    assert(anchored_literal(rule_pattern(1)) =~= "CN"@);
    assert(anchored_literal(rule_pattern(2)) =~= "SN"@);
    assert(anchored_literal(rule_pattern(3)) =~= "Ch"@);
    assert forall|r: int| 0 <= r < 4 implies rule_pattern(r).len() > 2 && #[trigger] rule_pattern(r)[0]
        == '^' && bar_free_from(
        rule_pattern(r),
        0,
    ) by {
        if r == 0 {
            assert(bar_free_from(SHENGHONG_PATTERN1@, 0));
        } else if r == 1 {
            assert(bar_free_from(SHENGHONG_PATTERN2@, 0));
        } else if r == 2 {
            assert(bar_free_from(WEICHUANG_PATTERN1@, 0));
        } else {
            assert(bar_free_from(WEICHUANG_PATTERN2@, 0));
        }
    }
}

/// A tagged name begins with its first tag.
proof fn lemma_tag_prefix(t1: Seq<char>, x: Seq<char>, t2: Seq<char>, y: Seq<char>, rest: Seq<char>)
    requires
        t1.len() == 2,
    ensures
        tagged_name(t1, x, t2, y, rest).len() >= 2,
        tagged_name(t1, x, t2, y, rest).take(2) == t1,
{
    assert(tagged_name(t1, x, t2, y, rest).take(2) =~= t1);
}

/// Unit-first and channel-first Shenghong names of one unit `a` and
/// channel `b` are read alike: when the regex captures `a` and `b` in
/// `UN{a}_CN{b}_...` and `b` and `a` in `CN{b}_UN{a}_...`, both names give
/// (Shenghong, `a`, `b`).
pub proof fn law_shenghong_field_order(a: Seq<char>, b: Seq<char>, rest: Seq<char>)
    requires
        ids_spec(regex_captures_spec(SHENGHONG_PATTERN1@, tagged_name("UN"@, a, "CN"@, b, rest)), 1, 2)
            == Some((a, b)),
        ids_spec(regex_captures_spec(SHENGHONG_PATTERN2@, tagged_name("CN"@, b, "UN"@, a, rest)), 1, 2)
            == Some((b, a)),
    ensures
        form_name_spec(tagged_name("UN"@, a, "CN"@, b, rest)) == Some((Sources::Shenghong, a, b)),
        form_name_spec(tagged_name("CN"@, b, "UN"@, a, rest)) == Some((Sources::Shenghong, a, b)),
{
    reveal_strlit("UN");
    reveal_strlit("CN");
    lemma_rule_anchors();
    let n1 = tagged_name("UN"@, a, "CN"@, b, rest);
    let n2 = tagged_name("CN"@, b, "UN"@, a, rest);
    lemma_tag_prefix("UN"@, a, "CN"@, b, rest);
    lemma_tag_prefix("CN"@, b, "UN"@, a, rest);
    assert(rule_pattern(0)[0] == '^');
    assert(rule_pattern(1)[0] == '^');
    assert(!anchor_excludes(rule_pattern(0), n1));
    assert(n2.take(2)[0] != "UN"@[0]);
    assert(anchor_excludes(rule_pattern(0), n2));
    assert(!anchor_excludes(rule_pattern(1), n2));
    assert(form_name_from_rule(n2, 1) == Some((Sources::Shenghong, a, b)));
    assert(form_name_from_rule(n2, 0) == form_name_from_rule(n2, 1));
}

/// Unit-first and channel-first Weichuang names of one unit `a` and
/// channel `b` are read alike: when the regex captures `a` and `b` in
/// `SN{a}_Ch{b}_...` and `b` and `a` in `Ch{b}_SN{a}_...`, both names give
/// (Weichuang, `a`, `b`).
pub proof fn law_weichuang_field_order(a: Seq<char>, b: Seq<char>, rest: Seq<char>)
    requires
        ids_spec(regex_captures_spec(WEICHUANG_PATTERN1@, tagged_name("SN"@, a, "Ch"@, b, rest)), 1, 2)
            == Some((a, b)),
        ids_spec(regex_captures_spec(WEICHUANG_PATTERN2@, tagged_name("Ch"@, b, "SN"@, a, rest)), 1, 2)
            == Some((b, a)),
    ensures
        form_name_spec(tagged_name("SN"@, a, "Ch"@, b, rest)) == Some((Sources::Weichuang, a, b)),
        form_name_spec(tagged_name("Ch"@, b, "SN"@, a, rest)) == Some((Sources::Weichuang, a, b)),
{
    reveal_strlit("UN");
    reveal_strlit("CN");
    reveal_strlit("SN");
    reveal_strlit("Ch");
    lemma_rule_anchors();
    let n3 = tagged_name("SN"@, a, "Ch"@, b, rest);
    let n4 = tagged_name("Ch"@, b, "SN"@, a, rest);
    lemma_tag_prefix("SN"@, a, "Ch"@, b, rest);
    lemma_tag_prefix("Ch"@, b, "SN"@, a, rest);
    assert(rule_pattern(0)[0] == '^');
    assert(rule_pattern(1)[0] == '^');
    assert(rule_pattern(2)[0] == '^');
    assert(rule_pattern(3)[0] == '^');
    assert(n3.take(2)[0] != "UN"@[0]);
    assert(n3.take(2)[0] != "CN"@[0]);
    assert(anchor_excludes(rule_pattern(0), n3));
    assert(anchor_excludes(rule_pattern(1), n3));
    assert(!anchor_excludes(rule_pattern(2), n3));
    assert(n4.take(2)[0] != "UN"@[0]);
    assert(n4.take(2)[1] != "CN"@[1]);
    assert(n4.take(2)[0] != "SN"@[0]);
    assert(anchor_excludes(rule_pattern(0), n4));
    assert(anchor_excludes(rule_pattern(1), n4));
    assert(anchor_excludes(rule_pattern(2), n4));
    assert(!anchor_excludes(rule_pattern(3), n4));
    assert(form_name_from_rule(n3, 2) == Some((Sources::Weichuang, a, b)));
    assert(form_name_from_rule(n3, 1) == form_name_from_rule(n3, 2));
    assert(form_name_from_rule(n3, 0) == form_name_from_rule(n3, 1));
    assert(form_name_from_rule(n4, 3) == Some((Sources::Weichuang, a, b)));
    assert(form_name_from_rule(n4, 2) == form_name_from_rule(n4, 3));
    assert(form_name_from_rule(n4, 1) == form_name_from_rule(n4, 2));
    assert(form_name_from_rule(n4, 0) == form_name_from_rule(n4, 1));
}

} // verus!
