//! What the tool writes out: where data files are copied to, the lists of
//! channels to export, and the names of the folders and files it makes.
use crate::manager::channel::ChannelInfo;
use crate::manager::format::TestStatus;
use crate::manager::group::{group_push, grouped, groups_view};
use crate::text::{concatenate, owned};
use vstd::prelude::*;

verus! {

/// The sample person of an entry, empty when there is none.
pub open spec fn person_or_empty(info: ChannelInfo) -> Seq<char> {
    match info.sample_person {
        Some(p) => p@,
        None => Seq::empty(),
    }
}

/// Where the data file of an entry goes, below the chosen folder:
/// `model//project person//temperature//sample device-channel.xlsx`.
pub open spec fn organize_target(info: ChannelInfo) -> Seq<char> {
    info.sample_model.label() + "//"@ + info.project_code@ + " "@ + person_or_empty(info) + "//"@
        + info.test_temperature.label() + "//"@ + info.sample_id@ + " "@ + info.device@ + "-"@
        + info.channel@ + ".xlsx"@
}

/// The copies to make: for each entry with a data file, in table order,
/// the file and where it goes.
pub open spec fn organize_spec(infos: Seq<ChannelInfo>) -> Seq<(Seq<char>, Seq<char>)>
    decreases infos.len(),
{
    if infos.len() == 0 {
        Seq::empty()
    } else {
        let rest = organize_spec(infos.drop_last());
        match infos.last().form_path {
            Some(p) => rest.push((p@, organize_target(infos.last()))),
            None => rest,
        }
    }
}

pub open spec fn pairs_view(v: Seq<(String, String)>) -> Seq<(Seq<char>, Seq<char>)> {
    Seq::new(v.len(), |i: int| (v[i].0@, v[i].1@))
}

/// Where the data file of an entry goes.
pub fn organize_target_of(info: &ChannelInfo) -> (r: String)
    ensures
        r@ == organize_target(*info),
{
    let mut r = info.sample_model.to_string();
    r.append("//");
    r.append(info.project_code.as_str());
    r.append(" ");
    match &info.sample_person {
        Some(p) => r.append(p.as_str()),
        None => {},
    }
    r.append("//");
    let temperature = info.test_temperature.to_string();
    r.append(temperature.as_str());
    r.append("//");
    r.append(info.sample_id.as_str());
    r.append(" ");
    r.append(info.device.as_str());
    r.append("-");
    r.append(info.channel.as_str());
    r.append(".xlsx");
    assert(r@ =~= organize_target(*info));
    r
}

/// The copies to make when organising the data files: each entry with a
/// data file, with where its file goes.
pub fn organize_plan(infos: &Vec<ChannelInfo>) -> (r: Vec<(String, String)>)
    ensures
        pairs_view(r@) == organize_spec(infos@),
{
    let mut plan: Vec<(String, String)> = Vec::new();
    let mut i: usize = 0;
    assert(pairs_view(plan@) =~= Seq::<(Seq<char>, Seq<char>)>::empty());
    while i < infos.len()
        invariant
            i <= infos.len(),
            pairs_view(plan@) == organize_spec(infos@.take(i as int)),
        decreases infos.len() - i,
    {
        let ghost upto = infos@.take(i + 1);
        assert(upto.drop_last() =~= infos@.take(i as int));
        assert(upto.last() == infos@[i as int]);
        let ghost before = pairs_view(plan@);
        match &infos[i].form_path {
            Some(p) => {
                let target = organize_target_of(&infos[i]);
                plan.push((p.clone(), target));
                assert(pairs_view(plan@) =~= before.push((p@, organize_target(infos@[i as int]))));
            },
            None => {},
        }
        i = i + 1;
    }
    assert(infos@.take(infos.len() as int) =~= infos@);
    plan
}

/// The previous channel of an entry, `N/A` when there is none.
pub open spec fn prv_or_na_of(info: ChannelInfo) -> Seq<char> {
    match info.channel_prv {
        Some(p) => p@,
        None => "N/A"@,
    }
}

/// The line that lists an entry for export.
pub open spec fn export_line(info: ChannelInfo) -> Seq<char> {
    "通道号："@ + info.channel@ + " 项目编号："@ + info.project_code@ + " 曾用通道号："@ + prv_or_na_of(
        info,
    )
}

/// The lines to export, keyed by device: entries in a long-running test
/// with a project code, in table order.
pub open spec fn export_items(infos: Seq<ChannelInfo>) -> Seq<(Seq<char>, Seq<char>)>
    decreases infos.len(),
{
    if infos.len() == 0 {
        Seq::empty()
    } else {
        let rest = export_items(infos.drop_last());
        let info = infos.last();
        if info.test_status == TestStatus::Long && info.project_code@.len() > 0 {
            rest.push((info.device@, export_line(info)))
        } else {
            rest
        }
    }
}

/// The line that lists an entry for export.
pub fn export_line_of(info: &ChannelInfo) -> (r: String)
    ensures
        r@ == export_line(*info),
{
    let mut r = owned("通道号：");
    r.append(info.channel.as_str());
    r.append(" 项目编号：");
    r.append(info.project_code.as_str());
    r.append(" 曾用通道号：");
    match &info.channel_prv {
        Some(p) => r.append(p.as_str()),
        None => r.append("N/A"),
    }
    assert(r@ =~= export_line(*info));
    r
}

/// The channels to export, grouped by device in order of first
/// appearance: one line per entry in a long-running test with a project code.
pub fn export_lists(infos: &Vec<ChannelInfo>) -> (r: Vec<(String, Vec<String>)>)
    ensures
        groups_view(r@) == grouped(export_items(infos@)),
{
    let mut groups: Vec<(String, Vec<String>)> = Vec::new();
    let mut i: usize = 0;
    assert(groups_view(groups@) =~= Seq::<(Seq<char>, Seq<Seq<char>>)>::empty());
    while i < infos.len()
        invariant
            i <= infos.len(),
            groups_view(groups@) == grouped(export_items(infos@.take(i as int))),
        decreases infos.len() - i,
    {
        let ghost upto = infos@.take(i + 1);
        assert(upto.drop_last() =~= infos@.take(i as int));
        assert(upto.last() == infos@[i as int]);
        let ghost before = export_items(infos@.take(i as int));
        let info = &infos[i];
        if info.test_status.is_long() && !info.project_code.as_str().is_empty() {
            let line = export_line_of(info);
            assert(export_items(upto) == before.push((info.device@, line@)));
            assert(export_items(upto).drop_last() =~= before);
            group_push(&mut groups, info.device.clone(), line);
        } else {
            assert(export_items(upto) == before);
        }
        i = i + 1;
    }
    assert(infos@.take(infos.len() as int) =~= infos@);
    groups
}

/// Lines joined by line breaks.
pub open spec fn join_lines(lines: Seq<Seq<char>>) -> Seq<char>
    decreases lines.len(),
{
    if lines.len() == 0 {
        Seq::empty()
    } else if lines.len() == 1 {
        lines[0]
    } else {
        join_lines(lines.drop_last()) + "\n"@ + lines.last()
    }
}

/// The text of a device's export list.
pub fn export_list_text(lines: &Vec<String>) -> (r: String)
    ensures
        r@ == "导出通道：\n"@ + join_lines(lines.deep_view()),
{
    let ghost lv = lines.deep_view();
    let mut body = String::new();
    let mut i: usize = 0;
    while i < lines.len()
        invariant
            lv == lines.deep_view(),
            i <= lines.len(),
            body@ == join_lines(lv.take(i as int)),
        decreases lines.len() - i,
    {
        let ghost upto = lv.take(i + 1);
        assert(upto.drop_last() =~= lv.take(i as int));
        assert(upto.last() == lv[i as int]);
        if i > 0 {
            body.append("\n");
        } else {
            assert(body@ =~= Seq::<char>::empty());
        }
        body.append(lines[i].as_str());
        assert(body@ =~= join_lines(upto));
        i = i + 1;
    }
    assert(lv.take(lines.len() as int) =~= lv);
    concatenate("导出通道：\n", body.as_str())
}

/// The file name of a device's export list.
pub fn export_list_file_name(device: &str) -> (r: String)
    ensures
        r@ == device@ + "导出清单.txt"@,
{
    concatenate(device, "导出清单.txt")
}

/// The folder the data files are organised into, for a date `YYYYMMDD`.
pub fn organize_folder_name(date: &str) -> (r: String)
    ensures
        r@ == date@ + "循环数据整理"@,
{
    concatenate(date, "循环数据整理")
}

/// The folder that collects the exported data, for a date `YYYYMMDD`.
pub fn collection_folder_name(date: &str) -> (r: String)
    ensures
        r@ == "循环数据采集"@ + date@,
{
    concatenate("循环数据采集", date)
}

/// The default name of the written table, for a date `YYYYMMDD`.
pub fn table_file_name(date: &str) -> (r: String)
    ensures
        r@ == date@ + "循环数据表"@,
{
    concatenate(date, "循环数据表")
}

/// The actions of the main menu.
#[derive(Debug, Clone, Copy, PartialEq, Eq, Structural)]
pub enum MenuCommand {
    ImportTable,
    CreateCollectionFolders,
    UpdateCycles,
    WriteTable,
    OrganizeFiles,
    ShowTable,
    Exit,
    UpdateCyclesV2,
    Invalid,
}

/// The action of menu entry `selection`; the entries after the eighth
/// are notes, not actions.
pub fn menu_command(selection: usize) -> (r: MenuCommand)
    ensures
        r == if selection == 0 {
            MenuCommand::ImportTable
        } else if selection == 1 {
            MenuCommand::CreateCollectionFolders
        } else if selection == 2 {
            MenuCommand::UpdateCycles
        } else if selection == 3 {
            MenuCommand::WriteTable
        } else if selection == 4 {
            MenuCommand::OrganizeFiles
        } else if selection == 5 {
            MenuCommand::ShowTable
        } else if selection == 6 {
            MenuCommand::Exit
        } else if selection == 7 {
            MenuCommand::UpdateCyclesV2
        } else {
            MenuCommand::Invalid
        },
{
    match selection {
        0 => MenuCommand::ImportTable,
        1 => MenuCommand::CreateCollectionFolders,
        2 => MenuCommand::UpdateCycles,
        3 => MenuCommand::WriteTable,
        4 => MenuCommand::OrganizeFiles,
        5 => MenuCommand::ShowTable,
        6 => MenuCommand::Exit,
        7 => MenuCommand::UpdateCyclesV2,
        _ => MenuCommand::Invalid,
    }
}

/// Whether an entry is listed for export: it is in a long-running test
/// and has a project code.
pub open spec fn is_exported(info: ChannelInfo) -> bool {
    info.test_status == TestStatus::Long && info.project_code@.len() > 0
}

/// Every entry with a data file gets exactly one copy, in table order, and
/// no other entry does: the plan is the entries that have a data file,
/// each taken to its file and its place.
pub proof fn law_every_data_file_is_copied(infos: Seq<ChannelInfo>)
    ensures
        organize_spec(infos) == infos.filter(|i: ChannelInfo| i.form_path is Some).map_values(
            |i: ChannelInfo| (i.form_path.unwrap()@, organize_target(i)),
        ),
    decreases infos.len(),
{
    let f = |i: ChannelInfo| (i.form_path.unwrap()@, organize_target(i));
    let keep = |i: ChannelInfo| i.form_path is Some;
    reveal(Seq::filter);
    if infos.len() == 0 {
        assert(infos.filter(keep) =~= Seq::<ChannelInfo>::empty());
        assert(infos.filter(keep).map_values(f) =~= Seq::empty());
    } else {
        law_every_data_file_is_copied(infos.drop_last());
        let sub = infos.drop_last().filter(keep);
        if keep(infos.last()) {
            assert(infos.filter(keep) == sub.push(infos.last()));
            assert(sub.push(infos.last()).map_values(f) =~= sub.map_values(f).push(f(infos.last())));
        } else {
            assert(infos.filter(keep) == sub);
        }
    }
}

/// Only entries in a long-running test with a project code are listed for
/// export, each once, in table order, under its device with its line; an
/// offline entry or one without a project code never is.
pub proof fn law_only_long_tests_are_exported(infos: Seq<ChannelInfo>)
    ensures
        export_items(infos) == infos.filter(|i: ChannelInfo| is_exported(i)).map_values(
            |i: ChannelInfo| (i.device@, export_line(i)),
        ),
        forall|k: int|
            #![trigger export_items(infos)[k]]
            0 <= k < export_items(infos).len() ==> exists|j: int|
                0 <= j < infos.len() && #[trigger] infos[j].test_status == TestStatus::Long
                    && infos[j].project_code@.len() > 0 && export_items(infos)[k] == (
                    infos[j].device@,
                    export_line(infos[j]),
                ),
    decreases infos.len(),
{
    let f = |i: ChannelInfo| (i.device@, export_line(i));
    let keep = |i: ChannelInfo| is_exported(i);
    reveal(Seq::filter);
    if infos.len() == 0 {
        assert(infos.filter(keep) =~= Seq::<ChannelInfo>::empty());
        assert(infos.filter(keep).map_values(f) =~= Seq::empty());
    } else {
        let rest = infos.drop_last();
        law_only_long_tests_are_exported(rest);
        let sub = rest.filter(keep);
        if keep(infos.last()) {
            assert(infos.filter(keep) == sub.push(infos.last()));
            assert(sub.push(infos.last()).map_values(f) =~= sub.map_values(f).push(f(infos.last())));
        } else {
            assert(infos.filter(keep) == sub);
        }
        assert forall|k: int|
            #![trigger export_items(infos)[k]]
            0 <= k < export_items(infos).len() implies exists|j: int|
            0 <= j < infos.len() && #[trigger] infos[j].test_status == TestStatus::Long
                && infos[j].project_code@.len() > 0 && export_items(infos)[k] == (
                infos[j].device@,
                export_line(infos[j]),
            ) by {
            if k < export_items(rest).len() {
                let j = choose|j: int|
                    0 <= j < rest.len() && #[trigger] rest[j].test_status == TestStatus::Long
                        && rest[j].project_code@.len() > 0 && export_items(rest)[k] == (
                        rest[j].device@,
                        export_line(rest[j]),
                    );
                assert(rest[j] == infos[j]);
            } else {
                let j = infos.len() - 1;
                assert(infos[j] == infos.last());
            }
        }
    }
}

} // verus!
