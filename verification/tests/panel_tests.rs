use std::collections::HashMap;

use dpmhub_gui::api::model::{DpmCellInfo, ECmdStatu, ERequestStatu};
use dpmhub_gui::compoment::modal_loading::ModalLoading;
use dpmhub_gui::compoment::panel_tab::{
    ContentView, ModalCommand, PanelIndex, PanelTab, WatchEvents,
};
use dpmhub_gui::error::ApiError;

fn pkg(name: &str, ver: &str) -> DpmCellInfo {
    DpmCellInfo {
        name: name.to_string(),
        ver: ver.to_string(),
        descript: String::new(),
        license: None,
        md5: None,
        cont_size: None,
        url: None,
        runtime: "cocos".to_string(),
        min_runtime_ver: None,
        max_runtime_ver: None,
        scripts: None,
        install_path: None,
    }
}

fn quiet() -> WatchEvents {
    WatchEvents { status: None, cmd: None, pm_list: None, dpm_list: None }
}

fn cmd(st: ECmdStatu, tag: &str) -> WatchEvents {
    WatchEvents { status: None, cmd: Some((st, tag.to_string())), pm_list: None, dpm_list: None }
}

#[test]
fn new_panel_state() {
    let p = PanelTab::default();
    assert!(p.is_first);
    assert!(p.is_needupdate_dpmloclist);
    assert_eq!(p.api_status, ERequestStatu::Idle);
    assert_eq!(p.cmd_status, ECmdStatu::Idle);
    assert!(p.pm_infos.is_empty());
    assert!(p.dpmloc_list.is_empty());
    assert_eq!(p.open_panel, PanelIndex::Binary);
    assert!(!p.modal_loading.opened);
}

#[test]
fn first_watch_launches_list_once() {
    let mut p = PanelTab::default();
    assert!(p.watch_data(quiet()));
    assert!(!p.is_needupdate_dpmloclist);
    assert!(!p.watch_data(quiet()));
}

#[test]
fn install_run_relists_installed_packages() {
    let mut p = PanelTab::default();
    p.watch_data(quiet());
    p.dpmloc_list = vec![pkg("a", "1")];
    assert!(!p.watch_data(cmd(ECmdStatu::Running, "install")));
    assert_eq!(p.cmd_status, ECmdStatu::Running);
    assert!(!p.watch_data(cmd(ECmdStatu::Idle, "install")));
    assert_eq!(p.cmd_status, ECmdStatu::Idle);
    assert!(p.is_needupdate_dpmloclist);
    assert!(p.dpmloc_list.is_empty());
    assert!(p.watch_data(quiet()));
}

#[test]
fn failed_install_does_not_relist() {
    let mut p = PanelTab::default();
    p.watch_data(quiet());
    p.watch_data(cmd(ECmdStatu::Running, "install"));
    p.watch_data(cmd(ECmdStatu::Error, "install"));
    assert_eq!(p.cmd_status, ECmdStatu::Error);
    p.watch_data(cmd(ECmdStatu::Idle, "install"));
    assert!(!p.is_needupdate_dpmloclist);
}

#[test]
fn list_run_does_not_relist() {
    let mut p = PanelTab::default();
    p.watch_data(quiet());
    p.watch_data(cmd(ECmdStatu::Running, "list"));
    p.watch_data(cmd(ECmdStatu::Idle, "list"));
    assert!(!p.is_needupdate_dpmloclist);
    assert_eq!(p.cmd_status, ECmdStatu::Idle);
}

#[test]
fn empty_package_list_is_ignored() {
    let mut p = PanelTab::default();
    p.watch_data(quiet());
    p.pm_infos = vec![pkg("a", "1")];
    p.watch_data(WatchEvents { status: None, cmd: None, pm_list: Some(vec![]), dpm_list: Some(vec![]) });
    assert_eq!(p.pm_infos.len(), 1);
    assert!(!p.is_needupdate_dpmloclist);
}

#[test]
fn new_package_list_replaces_and_relists() {
    let mut p = PanelTab::default();
    p.watch_data(quiet());
    p.dpmloc_list = vec![pkg("x", "0")];
    p.watch_data(WatchEvents {
        status: Some(ERequestStatu::Idle),
        cmd: None,
        pm_list: Some(vec![pkg("a", "1"), pkg("b", "2")]),
        dpm_list: None,
    });
    assert_eq!(p.pm_infos.len(), 2);
    assert_eq!(p.pm_infos[1].name, "b");
    assert!(p.is_needupdate_dpmloclist);
    assert!(p.dpmloc_list.is_empty());
    assert_eq!(p.content_view(), ContentView::Cards);
}

#[test]
fn installed_list_arrives() {
    let mut p = PanelTab::default();
    p.watch_data(WatchEvents { status: None, cmd: None, pm_list: None, dpm_list: Some(vec![pkg("a", "1")]) });
    assert_eq!(p.dpmloc_list.len(), 1);
    assert!(p.is_installed_pm("a", "1"));
    assert!(!p.is_installed_pm("a", "2"));
    assert!(!p.is_installed_pm("b", "1"));
}

#[test]
fn reset_marks_stale() {
    let mut p = PanelTab::default();
    p.is_needupdate_dpmloclist = false;
    p.dpmloc_list = vec![pkg("a", "1")];
    p.reset_dpmloc_list();
    assert!(p.is_needupdate_dpmloclist);
    assert!(p.dpmloc_list.is_empty());
}

#[test]
fn tabs_fetch_on_first_frame_and_on_switch() {
    let mut p = PanelTab::default();
    p.pm_infos = vec![pkg("a", "1")];
    assert_eq!(p.select_tab(None), Some(PanelIndex::Binary));
    assert!(p.pm_infos.is_empty());
    assert!(!p.is_first);
    assert_eq!(p.select_tab(None), None);
    assert_eq!(p.select_tab(Some(PanelIndex::Binary)), None);
    p.pm_infos = vec![pkg("a", "1")];
    assert_eq!(p.select_tab(Some(PanelIndex::Lib)), Some(PanelIndex::Lib));
    assert_eq!(p.open_panel, PanelIndex::Lib);
    assert!(p.pm_infos.is_empty());
    assert_eq!(p.select_tab(Some(PanelIndex::Lib)), None);
}

#[test]
fn content_follows_request_state() {
    let mut p = PanelTab::default();
    assert_eq!(p.content_view(), ContentView::Blank);
    p.watch_data(WatchEvents { status: Some(ERequestStatu::Requesting), cmd: None, pm_list: None, dpm_list: None });
    assert_eq!(p.content_view(), ContentView::Syncing);
    p.watch_data(WatchEvents { status: Some(ERequestStatu::Error), cmd: None, pm_list: None, dpm_list: None });
    assert_eq!(p.content_view(), ContentView::NoData);
}

#[test]
fn modal_follows_command_state() {
    let mut p = PanelTab::default();
    assert_eq!(p.handle_modal(), ModalCommand::Keep);
    p.watch_data(cmd(ECmdStatu::Running, "install"));
    assert_eq!(p.handle_modal(), ModalCommand::Show);
    assert!(p.modal_loading.opened);
    assert_eq!(p.handle_modal(), ModalCommand::Show);
    p.watch_data(cmd(ECmdStatu::Idle, "install"));
    assert_eq!(p.handle_modal(), ModalCommand::Close);
    assert!(!p.modal_loading.opened);
    assert_eq!(p.handle_modal(), ModalCommand::Keep);
}

#[test]
fn modal_loading_texts() {
    let mut m = ModalLoading::default();
    assert_eq!(m.name, "Loading");
    assert_eq!(m.txt_title, "Installing");
    assert!(!m.drop());
    m.show();
    assert!(m.opened);
    assert!(m.drop());
    assert!(!m.opened);
}

#[test]
fn card_of_a_remote_package() {
    let p = PanelTab::default();
    let mut info = pkg("tracer-inspector", "0.0.3");
    info.cont_size = Some(2048);
    info.license = Some("MIT".to_string());
    info.descript = "inspects".to_string();
    let c = p.card_widget(&info);
    assert_eq!(c.title, "tracer-inspector");
    assert!(!c.installed);
    assert_eq!(c.install_pkg, "tracer-inspector@0.0.3");
    assert_eq!(c.runtime, "cocos");
    assert_eq!(c.ver, "0.0.3");
    assert_eq!(c.size, 2048);
    assert_eq!(c.license, "MIT");
    assert_eq!(c.desc, "inspects");
    assert_eq!(c.scripts_from, None);
}

#[test]
fn card_defaults_for_missing_fields() {
    let p = PanelTab::default();
    let c = p.card_widget(&pkg("a", "1"));
    assert_eq!(c.size, 0);
    assert_eq!(c.license, "");
    assert_eq!(c.desc, "No Description");
}

#[test]
fn card_of_an_installed_package_offers_scripts() {
    let mut p = PanelTab::default();
    let mut loc = pkg("a", "1");
    let mut scripts = HashMap::new();
    scripts.insert("run".to_string(), "a-run".to_string());
    loc.scripts = Some(scripts);
    p.dpmloc_list = vec![pkg("b", "1"), loc];
    let c = p.card_widget(&pkg("a", "1"));
    assert!(c.installed);
    assert_eq!(c.scripts_from, Some(1));
    let c = p.card_widget(&pkg("a", "2"));
    assert!(!c.installed);
    assert_eq!(c.scripts_from, None);
}

#[test]
fn card_scripts_come_from_first_record_of_the_name() {
    let mut p = PanelTab::default();
    let mut loc = pkg("a", "2");
    let mut scripts = HashMap::new();
    scripts.insert("run".to_string(), "a-run".to_string());
    loc.scripts = Some(scripts);
    p.dpmloc_list = vec![pkg("a", "1"), loc];
    let c = p.card_widget(&pkg("a", "2"));
    assert!(c.installed);
    assert_eq!(c.scripts_from, None);
}

#[test]
fn dpm_commands() {
    let i = PanelTab::shell_dpm_install("a@1");
    assert_eq!(i.program, "dpm");
    assert_eq!(i.args, vec!["install".to_string(), "a@1".to_string()]);
    assert_eq!(i.tag, "install");
    let l = PanelTab::shell_dpm_list();
    assert_eq!(l.args, vec!["list".to_string()]);
    assert_eq!(l.tag, "list");
    assert_eq!(i.started(), (ECmdStatu::Running, "install".to_string()));
    assert_eq!(l.finished(false), vec![(ECmdStatu::Idle, "list".to_string())]);
    assert_eq!(
        i.finished(true),
        vec![(ECmdStatu::Error, "install".to_string()), (ECmdStatu::Idle, "install".to_string())]
    );
}

#[test]
fn list_output_needs_success_and_quiet_stderr() {
    assert!(PanelTab::list_output_accepted(true, 0));
    assert!(!PanelTab::list_output_accepted(true, 3));
    assert!(!PanelTab::list_output_accepted(false, 0));
}

#[test]
fn pmlist_reply_messages() {
    assert_eq!(PanelTab::pmlist_request_started(), ERequestStatu::Requesting);
    let (l, s) = PanelTab::api_get_pmlist(Ok(vec![pkg("a", "1")]));
    assert_eq!(l.unwrap().len(), 1);
    assert_eq!(s, ERequestStatu::Idle);
    let (l, s) = PanelTab::api_get_pmlist(Err(ApiError::ApiFailed("down".to_string())));
    assert!(l.is_none());
    assert_eq!(s, ERequestStatu::Error);
}
