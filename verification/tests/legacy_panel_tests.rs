use dpmhub_gui::api::model::DpmCellInfo;
use dpmhub_gui::compoment::panel_tab::{ContentView, PanelIndex, TargetOs};
use dpmhub_gui::compoment::PanelTab;
use dpmhub_gui::error::ApiError;

fn pkg(name: &str, ver: &str) -> DpmCellInfo {
    DpmCellInfo {
        name: name.to_string(),
        ver: ver.to_string(),
        descript: String::new(),
        license: None,
        md5: None,
        cont_size: Some(7),
        url: None,
        runtime: "node".to_string(),
        min_runtime_ver: None,
        max_runtime_ver: None,
        scripts: None,
        install_path: None,
    }
}

#[test]
fn legacy_panel_fetches_first_and_on_switch() {
    let mut p = PanelTab::default();
    assert!(!p.is_first);
    assert_eq!(p.select_tab(None), Some(PanelIndex::Binary));
    assert!(p.is_first);
    assert_eq!(p.select_tab(None), None);
    assert_eq!(p.select_tab(Some(PanelIndex::Unknown)), Some(PanelIndex::Unknown));
    assert_eq!(p.select_tab(Some(PanelIndex::Unknown)), None);
}

#[test]
fn legacy_panel_keeps_answers() {
    let mut p = PanelTab::default();
    p.api_get_pmlist(Ok(vec![pkg("a", "1")]));
    assert_eq!(p.content_view(), ContentView::Cards);
    p.api_get_pmlist(Ok(vec![]));
    assert_eq!(p.content_view(), ContentView::NoData);
    p.api_get_pmlist(Err(ApiError::ApiFailed("x".to_string())));
    assert!(p.pm_list_arc.is_none());
}

#[test]
fn legacy_install_is_fixed() {
    let c = PanelTab::dpm_install("a@1");
    assert_eq!(c.args, vec!["install".to_string(), "tracer-inspector@0.0.3".to_string()]);
    assert_eq!(PanelTab::dpm_install_result(true, "ok".to_string(), "bad".to_string()), (true, "ok".to_string()));
    assert_eq!(PanelTab::dpm_install_result(false, "ok".to_string(), "bad".to_string()), (false, "bad".to_string()));
}

#[test]
fn legacy_card_and_pmtype() {
    let c = PanelTab::card_widget(&pkg("a", "1"));
    assert_eq!(c.install_pkg, "a@1");
    assert_eq!(c.size, 7);
    assert!(!c.installed);
    assert_eq!(PanelTab::get_open_pmtype(&PanelIndex::Lib, TargetOs::Windows), "ccv2");
}
