use crate::api::model::{DpmCellInfo, ECmdStatu, ERequestStatu};
use crate::compoment::panel_tab::{
    content_of, first_named_from, install_finished, installed_in, modal_command, modal_handled,
    pm_type_of, ModalCommand, TargetOs, non_empty, tab_fetches, tabbed, watched, ContentView, PanelIndex,
    PanelModel, WatchEventsModel,
};
use vstd::prelude::*;

verus! {

/// A frame in which nothing arrived.
pub open spec fn quiet() -> WatchEventsModel {
    WatchEventsModel { status: None, cmd: None, pm_list: None, dpm_list: None }
}

/// A frame in which only a command status message arrived.
pub open spec fn cmd_event(st: ECmdStatu, tag: Seq<char>) -> WatchEventsModel {
    WatchEventsModel { status: None, cmd: Some((st, tag)), pm_list: None, dpm_list: None }
}

/// A frame in which only a request status message arrived.
pub open spec fn status_event(st: ERequestStatu) -> WatchEventsModel {
    WatchEventsModel { status: Some(st), cmd: None, pm_list: None, dpm_list: None }
}

/// An install run that started and finished, its messages taken in one per
/// frame, leaves the panel idle with the installed list marked stale and
/// emptied: the next frame launches `dpm list` (`watch_data` launches it
/// exactly when the list was marked stale).
pub proof fn law_install_run_relists(m: PanelModel)
    ensures
        ({
            let m1 = watched(m, cmd_event(ECmdStatu::Running, "install"@));
            let m2 = watched(m1, cmd_event(ECmdStatu::Idle, "install"@));
            &&& m2.needs_relist
            &&& m2.cmd_status == ECmdStatu::Idle
            &&& m2.dpmloc_list.len() == 0
        }),
{
}

/// A frame that brings neither the end of a watched install nor a non-empty
/// package list leaves the installed list not stale: the list command is
/// launched once per time the list is marked stale.
pub proof fn law_relist_once(m: PanelModel, ev: WatchEventsModel)
    requires
        !install_finished(m, ev.cmd),
        !non_empty(ev.pm_list),
    ensures
        !watched(m, ev).needs_relist,
        !watched(watched(m, ev), quiet()).needs_relist,
{
}

/// An answer with no package in it never replaces the packages shown.
pub proof fn law_empty_list_kept_out(m: PanelModel, ev: WatchEventsModel)
    requires
        !non_empty(ev.pm_list),
    ensures
        watched(m, ev).pm_infos == m.pm_infos,
{
}

/// A non-empty package list is shown as it came, and the installed list is
/// asked for again.
pub proof fn law_new_list_shown(m: PanelModel, ev: WatchEventsModel, l: Seq<DpmCellInfo>)
    requires
        ev.pm_list == Some(l),
        l.len() > 0,
    ensures
        watched(m, ev).pm_infos == l,
        watched(m, ev).needs_relist,
        content_of(watched(m, ev)) == ContentView::Cards,
{
}

/// The first frame of a panel asks for a list, whatever was clicked.
pub proof fn law_first_frame_fetches(m: PanelModel, clicked: Option<PanelIndex>)
    requires
        m.is_first,
    ensures
        tab_fetches(m, clicked),
{
}

/// After the tab bar was handled, a frame without a click, or with a click on
/// the open tab, asks for nothing.
pub proof fn law_no_refetch(m: PanelModel, clicked: Option<PanelIndex>)
    ensures
        !tab_fetches(tabbed(m, clicked), None),
        !tab_fetches(tabbed(m, clicked), Some(tabbed(m, clicked).open_panel)),
{
}

/// After a switch of tab, while the list is being asked for, the panel shows
/// "Asyncing...".
pub proof fn law_switch_shows_syncing(m: PanelModel, clicked: Option<PanelIndex>)
    requires
        tab_fetches(m, clicked),
    ensures
        content_of(watched(tabbed(m, clicked), status_event(ERequestStatu::Requesting)))
            == ContentView::Syncing,
{
}

/// When asking for the list fails and no package is shown, the panel shows
/// "No Data".
pub proof fn law_failed_fetch_no_data(m: PanelModel)
    requires
        m.pm_infos.len() == 0,
    ensures
        content_of(watched(m, status_event(ERequestStatu::Error))) == ContentView::NoData,
{
}

/// The "installing" dialog goes up in the frame after an install starts and
/// is closed in the frame after it ends.
pub proof fn law_dialog_follows_install(m: PanelModel)
    ensures
        ({
            let m1 = modal_handled(watched(m, cmd_event(ECmdStatu::Running, "install"@)));
            let m2 = watched(m1, cmd_event(ECmdStatu::Idle, "install"@));
            &&& m1.modal_open
            &&& modal_command(watched(m, cmd_event(ECmdStatu::Running, "install"@)))
                == ModalCommand::Show
            &&& modal_command(m2) == ModalCommand::Close
            &&& !modal_handled(m2).modal_open
        }),
{
}

/// A package is installed in a version as soon as any record of the
/// installed list, at whatever position, has that name and that version.
pub proof fn law_installed_any_position(list: Seq<DpmCellInfo>, name: Seq<char>, ver: Seq<char>, i: int)
    requires
        0 <= i < list.len(),
        list[i].name@ == name,
        list[i].ver@ == ver,
    ensures
        installed_in(list, name, ver),
{
}

/// A package counts as installed in a version only if some record of the
/// installed list has that name and that version.
pub proof fn law_installed_only_listed(list: Seq<DpmCellInfo>, name: Seq<char>, ver: Seq<char>)
    requires
        forall|i: int| 0 <= i < list.len() ==> !((#[trigger] list[i]).name@ == name && list[i].ver@ == ver),
    ensures
        !installed_in(list, name, ver),
{
}

/// A non-empty installed list that arrives is kept as it came, record for
/// record, and every package in it then counts as installed.
pub proof fn law_installed_list_arrives(m: PanelModel, ev: WatchEventsModel, l: Seq<DpmCellInfo>)
    requires
        ev.dpm_list == Some(l),
        l.len() > 0,
    ensures
        watched(m, ev).dpmloc_list.len() == l.len(),
        forall|i: int| 0 <= i < l.len() ==> #[trigger] watched(m, ev).dpmloc_list[i] == l[i],
        forall|i: int|
            0 <= i < l.len() ==> installed_in(watched(m, ev).dpmloc_list, (#[trigger] l[i]).name@, l[i].ver@),
{
    assert forall|i: int| 0 <= i < l.len() implies installed_in(
        watched(m, ev).dpmloc_list,
        (#[trigger] l[i]).name@,
        l[i].ver@,
    ) by {
        law_installed_any_position(watched(m, ev).dpmloc_list, l[i].name@, l[i].ver@, i);
    }
}

/// The Lib tab asks for "ccv2" and the Unknown tab for "unknown" on every
/// platform; only the Binary tab's type depends on the platform.
pub proof fn law_pm_type_per_tab(os: TargetOs)
    ensures
        pm_type_of(PanelIndex::Lib, os) == "ccv2"@,
        pm_type_of(PanelIndex::Unknown, os) == "unknown"@,
        pm_type_of(PanelIndex::Binary, TargetOs::Windows) == "bin-win32"@,
        pm_type_of(PanelIndex::Binary, TargetOs::MacOs) == "bin-maxos"@,
        pm_type_of(PanelIndex::Binary, TargetOs::Other) == "unknow"@,
{
}

/// A dialog that is up is closed in any frame where no command runs, whether
/// the last command ended or failed.
pub proof fn law_open_dialog_closes(m: PanelModel)
    requires
        m.modal_open,
        m.cmd_status != ECmdStatu::Running,
    ensures
        modal_command(m) == ModalCommand::Close,
        !modal_handled(m).modal_open,
{
}

/// While a command runs the dialog is shown, whatever was up before.
pub proof fn law_running_shows_dialog(m: PanelModel)
    requires
        m.cmd_status == ECmdStatu::Running,
    ensures
        modal_command(m) == ModalCommand::Show,
        modal_handled(m).modal_open,
{
}

/// Clicking a tab other than the open one, from any tab, opens it, asks for
/// its list and drops the packages shown until the list arrives.
pub proof fn law_click_other_tab_fetches_it(m: PanelModel, p: PanelIndex)
    requires
        p != m.open_panel,
    ensures
        tab_fetches(m, Some(p)),
        tabbed(m, Some(p)).open_panel == p,
        tabbed(m, Some(p)).pm_infos.len() == 0,
{
}

/// Packages in hand are always shown as cards, whatever the request state.
pub proof fn law_packages_shown(m: PanelModel)
    requires
        m.pm_infos.len() > 0,
    ensures
        content_of(m) == ContentView::Cards,
{
}

/// The first record of a name, searched from `start`: it has the name, and no
/// record between `start` and it has; when there is none, no record from
/// `start` on has the name.
pub proof fn law_first_named(list: Seq<DpmCellInfo>, name: Seq<char>, start: int)
    requires
        0 <= start,
    ensures
        match first_named_from(list, name, start) {
            Some(i) => start <= i < list.len() && list[i].name@ == name && forall|j: int|
                start <= j < i ==> (#[trigger] list[j]).name@ != name,
            None => forall|j: int| start <= j < list.len() ==> (#[trigger] list[j]).name@ != name,
        },
    decreases list.len() - start,
{
    if start < list.len() && list[start].name@ != name {
        law_first_named(list, name, start + 1);
    }
}

} // verus!
