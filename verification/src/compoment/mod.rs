pub mod modal_loading;
pub mod panel_laws;
pub mod panel_tab;

use crate::api::model::DpmCellInfo;
use crate::compoment::panel_tab::{card_base, card_shows, CardView, CmdPlan, ContentView, PanelIndex, TargetOs, pm_type_of};
use crate::error::ApiError;
use vstd::prelude::*;

verus! {

/// The first panel: it lists the packages of a tab and installs one fixed
/// package; it keeps no record of what is installed.
pub struct PanelTab {
    /// The list of the open tab was asked for at least once.
    pub is_first: bool,
    pub open_panel: PanelIndex,
    /// The list of the open tab, once an answer came (`None` after a failure).
    pub pm_list_arc: Option<Vec<DpmCellInfo>>,
}

/// This panel asks for a list on its first frame and on every switch of tab.
pub open spec fn legacy_fetches(is_first: bool, open: PanelIndex, clicked: Option<PanelIndex>) -> bool {
    (clicked matches Some(p) && p != open) || !is_first
}

impl Default for PanelTab {
    fn default() -> (r: Self)
        ensures
            !r.is_first,
            r.open_panel == PanelIndex::Binary,
            r.pm_list_arc is None,
    {
        PanelTab { is_first: false, open_panel: PanelIndex::default(), pm_list_arc: None }
    }
}

impl PanelTab {
    /// The package type asked for on tab `idx` of a client built for `os`.
    pub fn get_open_pmtype(idx: &PanelIndex, os: TargetOs) -> (r: &'static str)
        ensures
            r@ == pm_type_of(*idx, os),
            *idx == PanelIndex::Lib ==> r@ == "ccv2"@,
            *idx == PanelIndex::Unknown ==> r@ == "unknown"@,
            *idx == PanelIndex::Binary && os == TargetOs::Windows ==> r@ == "bin-win32"@,
            *idx == PanelIndex::Binary && os == TargetOs::MacOs ==> r@ == "bin-maxos"@,
            *idx == PanelIndex::Binary && os == TargetOs::Other ==> r@ == "unknow"@,
    {
        panel_tab::PanelTab::get_open_pmtype(idx, os)
    }

    /// The tab bar: `clicked` is the tab clicked this frame, if any. Says
    /// which tab's list must be asked for, if one must.
    pub fn select_tab(&mut self, clicked: Option<PanelIndex>) -> (fetch: Option<PanelIndex>)
        ensures
            final(self).open_panel == (match clicked {
                Some(p) => p,
                None => old(self).open_panel,
            }),
            final(self).is_first,
            final(self).pm_list_arc == old(self).pm_list_arc,
            fetch == (if legacy_fetches(old(self).is_first, old(self).open_panel, clicked) {
                Some(final(self).open_panel)
            } else {
                None
            }),
            clicked matches Some(p) ==> (p != old(self).open_panel ==> fetch == Some(p)),
            !old(self).is_first ==> fetch == Some(final(self).open_panel),
            old(self).is_first && !(clicked matches Some(p) && p != old(self).open_panel) ==> fetch
                is None,
    {
        let mut changed = false;
        if let Some(p) = clicked {
            if p != self.open_panel {
                changed = true;
            }
            self.open_panel = p;
        }
        if changed || !self.is_first {
            self.is_first = true;
            Some(self.open_panel)
        } else {
            None
        }
    }

    /// Keeps the answer to a list request: the list, or nothing on failure.
    pub fn api_get_pmlist(&mut self, resp: Result<Vec<DpmCellInfo>, ApiError>)
        ensures
            final(self).is_first == old(self).is_first,
            final(self).open_panel == old(self).open_panel,
            match resp {
                Ok(l) => final(self).pm_list_arc matches Some(v) && v@ == l@,
                Err(_) => final(self).pm_list_arc is None,
            },
    {
        self.pm_list_arc = match resp {
            Ok(l) => Some(l),
            Err(_) => None,
        };
    }

    /// What the body shows; it is drawn only once a list answer is kept.
    pub fn content_view(&self) -> (v: ContentView)
        requires
            self.pm_list_arc is Some,
        ensures
            v == (if self.pm_list_arc->0@.len() > 0 {
                ContentView::Cards
            } else {
                ContentView::NoData
            }),
    {
        match &self.pm_list_arc {
            Some(l) => if l.len() > 0 {
                ContentView::Cards
            } else {
                ContentView::NoData
            },
            None => ContentView::NoData,
        }
    }

    /// The card of package `info`; this panel offers "install" on every card.
    pub fn card_widget(info: &DpmCellInfo) -> (v: CardView)
        ensures
            card_shows(v, *info),
            v.title@ == info.name@,
            v.install_pkg@ == info.name@ + "@"@ + info.ver@,
            v.runtime@ == info.runtime@,
            v.ver@ == info.ver@,
            info.cont_size matches Some(sz) ==> v.size == sz,
            info.cont_size is None ==> v.size == 0,
            info.license matches Some(l) ==> v.license@ == l@,
            info.license is None ==> v.license@.len() == 0,
            info.descript@.len() > 0 ==> v.desc@ == info.descript@,
            info.descript@.len() == 0 ==> v.desc@ == "No Description"@,
            !v.installed,
            v.scripts_from is None,
    {
        card_base(info)
    }

    /// The command that "install" runs. Whatever package it is asked for,
    /// this panel installs `tracer-inspector@0.0.3`.
    pub fn dpm_install(pm: &str) -> (p: CmdPlan)
        ensures
            p.program@ == "dpm"@,
            p.args@.len() == 2,
            p.args@[0]@ == "install"@,
            p.args@[1]@ == "tracer-inspector@0.0.3"@,
            p.tag@ == "install"@,
    {
        CmdPlan {
            program: "dpm".to_owned(),
            args: vec!["install".to_owned(), "tracer-inspector@0.0.3".to_owned()],
            tag: "install".to_owned(),
        }
    }

    /// The report of an install run: success with what it printed, or
    /// failure with its error stream.
    pub fn dpm_install_result(success: bool, stdout: String, stderr: String) -> (r: (bool, String))
        ensures
            r.0 == success,
            r.1@ == (if success {
                stdout@
            } else {
                stderr@
            }),
    {
        if success {
            (true, stdout)
        } else {
            (false, stderr)
        }
    }
}

} // verus!
