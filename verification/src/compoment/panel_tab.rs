use crate::api::model::{DpmCellInfo, ECmdStatu, ERequestStatu};
use crate::api::ApiRsvr::{get_pmlist, joined, url_parse};
use crate::compoment::modal_loading::ModalLoading;
use crate::error::ApiError;
use vstd::prelude::*;
use vstd::string::StringExecFns;

verus! {

/// The tabs of the panel, one per kind of package.
#[derive(PartialEq, Eq, Structural, Clone, Copy, Debug)]
pub enum PanelIndex {
    Binary,
    Lib,
    Unknown,
}

impl Default for PanelIndex {
    fn default() -> (r: Self)
        ensures
            r == PanelIndex::Binary,
    {
        PanelIndex::Binary
    }
}

/// The platform the client was built for; binary packages differ by platform.
#[derive(PartialEq, Eq, Structural, Clone, Copy, Debug)]
pub enum TargetOs {
    Windows,
    MacOs,
    Other,
}

/// The package type that the index server is asked for, per tab.
pub open spec fn pm_type_of(idx: PanelIndex, os: TargetOs) -> Seq<char> {
    match idx {
        PanelIndex::Binary => match os {
            TargetOs::Windows => "bin-win32"@,
            TargetOs::MacOs => "bin-maxos"@,
            TargetOs::Other => "unknow"@,
        },
        PanelIndex::Lib => "ccv2"@,
        PanelIndex::Unknown => "unknown"@,
    }
}

/// Whether `list` holds a package of this name and version.
pub open spec fn installed_in(list: Seq<DpmCellInfo>, name: Seq<char>, ver: Seq<char>) -> bool {
    exists|i: int| 0 <= i < list.len() && (#[trigger] list[i]).name@ == name && list[i].ver@ == ver
}

/// The state of the panel, as plain values.
pub struct PanelModel {
    pub is_first: bool,
    pub needs_relist: bool,
    pub api_status: ERequestStatu,
    pub cmd_status: ECmdStatu,
    pub pm_infos: Seq<DpmCellInfo>,
    pub dpmloc_list: Seq<DpmCellInfo>,
    pub open_panel: PanelIndex,
    pub modal_open: bool,
    pub modal_name: Seq<char>,
    pub modal_title: Seq<char>,
}

/// The panel that lists the packages of the index server by kind, with what
/// is installed locally.
pub struct PanelTab {
    /// The panel has not asked for a list yet.
    pub is_first: bool,
    /// The list of installed packages is stale and must be asked for again.
    pub is_needupdate_dpmloclist: bool,
    pub api_status: ERequestStatu,
    pub cmd_status: ECmdStatu,
    /// The packages of the open tab, as the index server listed them.
    pub pm_infos: Vec<DpmCellInfo>,
    /// The packages installed locally, as `dpm list` reported them.
    pub dpmloc_list: Vec<DpmCellInfo>,
    pub open_panel: PanelIndex,
    pub modal_loading: ModalLoading,
}

impl View for PanelTab {
    type V = PanelModel;

    open spec fn view(&self) -> PanelModel {
        PanelModel {
            is_first: self.is_first,
            needs_relist: self.is_needupdate_dpmloclist,
            api_status: self.api_status,
            cmd_status: self.cmd_status,
            pm_infos: self.pm_infos@,
            dpmloc_list: self.dpmloc_list@,
            open_panel: self.open_panel,
            modal_open: self.modal_loading.opened,
            modal_name: self.modal_loading.name@,
            modal_title: self.modal_loading.txt_title@,
        }
    }
}

/// What one frame hands the panel from the background work, at most one
/// message from each source.
pub struct WatchEvents {
    pub status: Option<ERequestStatu>,
    pub cmd: Option<(ECmdStatu, String)>,
    pub pm_list: Option<Vec<DpmCellInfo>>,
    pub dpm_list: Option<Vec<DpmCellInfo>>,
}

pub struct WatchEventsModel {
    pub status: Option<ERequestStatu>,
    pub cmd: Option<(ECmdStatu, Seq<char>)>,
    pub pm_list: Option<Seq<DpmCellInfo>>,
    pub dpm_list: Option<Seq<DpmCellInfo>>,
}

impl View for WatchEvents {
    type V = WatchEventsModel;

    open spec fn view(&self) -> WatchEventsModel {
        WatchEventsModel {
            status: self.status,
            cmd: match self.cmd {
                Some(c) => Some((c.0, c.1@)),
                None => None,
            },
            pm_list: match self.pm_list {
                Some(l) => Some(l@),
                None => None,
            },
            dpm_list: match self.dpm_list {
                Some(l) => Some(l@),
                None => None,
            },
        }
    }
}

/// An install that the panel saw running has reported that it is done.
pub open spec fn install_finished(m: PanelModel, cmd: Option<(ECmdStatu, Seq<char>)>) -> bool {
    &&& cmd matches Some(c)
    &&& c.0 == ECmdStatu::Idle
    &&& c.1 == "install"@
    &&& m.cmd_status == ECmdStatu::Running
}

/// A list arrived and holds at least one package.
pub open spec fn non_empty(l: Option<Seq<DpmCellInfo>>) -> bool {
    l matches Some(s) && s.len() > 0
}

/// The panel after it took in the messages `ev` of one frame.
pub open spec fn watched(m: PanelModel, ev: WatchEventsModel) -> PanelModel {
    let reset = install_finished(m, ev.cmd) || non_empty(ev.pm_list);
    PanelModel {
        is_first: m.is_first,
        needs_relist: reset,
        api_status: match ev.status {
            Some(s) => s,
            None => m.api_status,
        },
        cmd_status: match ev.cmd {
            Some(c) => c.0,
            None => m.cmd_status,
        },
        pm_infos: if non_empty(ev.pm_list) {
            ev.pm_list->0
        } else {
            m.pm_infos
        },
        dpmloc_list: if non_empty(ev.dpm_list) {
            ev.dpm_list->0
        } else if m.needs_relist || reset {
            Seq::empty()
        } else {
            m.dpmloc_list
        },
        open_panel: m.open_panel,
        modal_open: m.modal_open,
        modal_name: m.modal_name,
        modal_title: m.modal_title,
    }
}

impl Default for PanelTab {
    fn default() -> (r: Self)
        ensures
            r@.is_first,
            r@.needs_relist,
            r@.api_status == ERequestStatu::Idle,
            r@.cmd_status == ECmdStatu::Idle,
            r@.pm_infos.len() == 0,
            r@.dpmloc_list.len() == 0,
            r@.open_panel == PanelIndex::Binary,
            !r@.modal_open,
            r@.modal_name == "Loading"@,
            r@.modal_title == "Installing"@,
    {
        PanelTab {
            is_first: true,
            is_needupdate_dpmloclist: true,
            api_status: ERequestStatu::Idle,
            cmd_status: ECmdStatu::Idle,
            pm_infos: Vec::new(),
            dpmloc_list: Vec::new(),
            open_panel: PanelIndex::default(),
            modal_loading: ModalLoading::default(),
        }
    }
}

impl PanelTab {
    /// The package type asked for on tab `idx` of a client built for `os`.
    pub fn get_open_pmtype(idx: &PanelIndex, os: TargetOs) -> (r: &'static str)
        ensures
            r@ == pm_type_of(*idx, os),
            *idx == PanelIndex::Lib ==> r@ == "ccv2"@,
            *idx == PanelIndex::Unknown ==> r@ == "unknown"@,
            *idx == PanelIndex::Binary && os == TargetOs::Windows ==> r@ == "bin-win32"@,
            *idx == PanelIndex::Binary && os == TargetOs::MacOs ==> r@ == "bin-maxos"@,
            *idx == PanelIndex::Binary && os == TargetOs::Other ==> r@ == "unknow"@,
    {
        match idx {
            PanelIndex::Binary => match os {
                TargetOs::Windows => "bin-win32",
                TargetOs::MacOs => "bin-maxos",
                TargetOs::Other => "unknow",
            },
            PanelIndex::Lib => "ccv2",
            PanelIndex::Unknown => "unknown",
        }
    }

    /// Whether the package `name` is installed locally in version `ver`.
    pub fn is_installed_pm(&self, name: &str, ver: &str) -> (r: bool)
        ensures
            r == installed_in(self@.dpmloc_list, name@, ver@),
            forall|i: int|
                0 <= i < self.dpmloc_list@.len() && (#[trigger] self.dpmloc_list@[i]).name@ == name@
                    && self.dpmloc_list@[i].ver@ == ver@ ==> r,
            r ==> exists|i: int|
                0 <= i < self.dpmloc_list@.len() && (#[trigger] self.dpmloc_list@[i]).name@ == name@
                    && self.dpmloc_list@[i].ver@ == ver@,
    {
        let name_s = name.to_owned();
        let ver_s = ver.to_owned();
        let n = self.dpmloc_list.len();
        let mut i: usize = 0;
        while i < n
            invariant
                n == self.dpmloc_list@.len(),
                i <= n,
                name_s@ == name@,
                ver_s@ == ver@,
                forall|j: int|
                    0 <= j < i ==> !((#[trigger] self.dpmloc_list@[j]).name@ == name@
                        && self.dpmloc_list@[j].ver@ == ver@),
            decreases n - i,
        {
            let info = &self.dpmloc_list[i];
            if info.name == name_s && info.ver == ver_s {
                return true;
            }
            i = i + 1;
        }
        false
    }

    /// Marks the installed packages as stale and forgets them.
    pub fn reset_dpmloc_list(&mut self)
        ensures
            final(self)@ == (PanelModel {
                needs_relist: true,
                dpmloc_list: Seq::empty(),
                ..old(self)@
            }),
    {
        self.is_needupdate_dpmloclist = true;
        self.dpmloc_list = Vec::new();
    }

    /// Takes in the messages of one frame. Says whether the list of installed
    /// packages must now be asked for (`dpm list`), which is the case when it
    /// was marked stale before this frame.
    pub fn watch_data(&mut self, events: WatchEvents) -> (launch_list: bool)
        ensures
            launch_list == old(self)@.needs_relist,
            final(self)@ == watched(old(self)@, events@),
            launch_list == old(self).is_needupdate_dpmloclist,
            match events.status {
                Some(st) => final(self).api_status == st,
                None => final(self).api_status == old(self).api_status,
            },
            match events.cmd {
                Some(c) => final(self).cmd_status == c.0,
                None => final(self).cmd_status == old(self).cmd_status,
            },
            match events.pm_list {
                Some(l) => if l@.len() > 0 {
                    final(self).pm_infos@ == l@ && final(self).is_needupdate_dpmloclist
                } else {
                    final(self).pm_infos@ == old(self).pm_infos@
                },
                None => final(self).pm_infos@ == old(self).pm_infos@,
            },
            events.cmd matches Some(c) && c.0 == ECmdStatu::Idle && c.1@ == "install"@
                && old(self).cmd_status == ECmdStatu::Running ==> final(self).is_needupdate_dpmloclist,
            !(events.cmd matches Some(c) && c.0 == ECmdStatu::Idle && c.1@ == "install"@
                && old(self).cmd_status == ECmdStatu::Running) && !(events.pm_list matches Some(l)
                && l@.len() > 0) ==> !final(self).is_needupdate_dpmloclist,
            events.dpm_list matches Some(l) ==> (l@.len() > 0 ==> final(self).dpmloc_list@ == l@),
            !(events.dpm_list matches Some(l) && l@.len() > 0) ==> (if old(
                self,
            ).is_needupdate_dpmloclist || final(self).is_needupdate_dpmloclist {
                final(self).dpmloc_list@.len() == 0
            } else {
                final(self).dpmloc_list@ == old(self).dpmloc_list@
            }),
            final(self).is_first == old(self).is_first,
            final(self).open_panel == old(self).open_panel,
            final(self).modal_loading.opened == old(self).modal_loading.opened,
            final(self).modal_loading.name@ == old(self).modal_loading.name@,
            final(self).modal_loading.txt_title@ == old(self).modal_loading.txt_title@,
    {
        let launch_list = self.is_needupdate_dpmloclist;
        if self.is_needupdate_dpmloclist {
            self.dpmloc_list = Vec::new();
            self.is_needupdate_dpmloclist = false;
        }
        let WatchEvents { status, cmd, pm_list, dpm_list } = events;
        if let Some(s) = status {
            self.api_status = s;
        }
        if let Some(c) = cmd {
            let install = "install".to_owned();
            if c.0 == ECmdStatu::Idle && c.1 == install && self.cmd_status == ECmdStatu::Running {
                self.reset_dpmloc_list();
            }
            self.cmd_status = c.0;
        }
        if let Some(l) = pm_list {
            if l.len() > 0 {
                self.pm_infos = l;
                self.reset_dpmloc_list();
            }
        }
        if let Some(l) = dpm_list {
            if l.len() > 0 {
                self.dpmloc_list = l;
            }
        }
        launch_list
    }
}


/// The tab was switched to another one.
pub open spec fn tab_changed(m: PanelModel, clicked: Option<PanelIndex>) -> bool {
    clicked matches Some(p) && p != m.open_panel
}

/// The panel asks for the list of the open tab: on its first frame, and
/// whenever the tab is switched.
pub open spec fn tab_fetches(m: PanelModel, clicked: Option<PanelIndex>) -> bool {
    tab_changed(m, clicked) || m.is_first
}

/// The panel after a frame in which tab `clicked` (if any) was clicked.
pub open spec fn tabbed(m: PanelModel, clicked: Option<PanelIndex>) -> PanelModel {
    PanelModel {
        is_first: false,
        open_panel: match clicked {
            Some(p) => p,
            None => m.open_panel,
        },
        pm_infos: if tab_fetches(m, clicked) {
            Seq::empty()
        } else {
            m.pm_infos
        },
        ..m
    }
}

/// What the dialog widget must do this frame.
#[derive(PartialEq, Eq, Structural, Clone, Copy, Debug)]
pub enum ModalCommand {
    /// Put the "installing" dialog up.
    Show,
    /// Close the dialog that is up.
    Close,
    /// Nothing to do.
    Keep,
}

/// What the body of the panel shows.
#[derive(PartialEq, Eq, Structural, Clone, Copy, Debug)]
pub enum ContentView {
    /// One card per package of the open tab.
    Cards,
    /// "Asyncing..." with a spinner: the list is being asked for.
    Syncing,
    /// "No Data": asking for the list failed.
    NoData,
    /// Nothing.
    Blank,
}

pub open spec fn content_of(m: PanelModel) -> ContentView {
    if m.pm_infos.len() > 0 {
        ContentView::Cards
    } else {
        match m.api_status {
            ERequestStatu::Requesting => ContentView::Syncing,
            ERequestStatu::Error => ContentView::NoData,
            ERequestStatu::Idle => ContentView::Blank,
        }
    }
}

/// The panel after its dialog was brought in line with the command state.
pub open spec fn modal_handled(m: PanelModel) -> PanelModel {
    PanelModel { modal_open: m.cmd_status == ECmdStatu::Running, ..m }
}

/// What the dialog widget must do: show while a command runs, close when one
/// is up and none runs.
pub open spec fn modal_command(m: PanelModel) -> ModalCommand {
    if m.cmd_status == ECmdStatu::Running {
        ModalCommand::Show
    } else if m.modal_open {
        ModalCommand::Close
    } else {
        ModalCommand::Keep
    }
}

impl PanelTab {
    /// The tab bar: `clicked` is the tab clicked this frame, if any. Says
    /// which tab's list must be asked for, if one must; the shown packages are
    /// then dropped until it arrives.
    pub fn select_tab(&mut self, clicked: Option<PanelIndex>) -> (fetch: Option<PanelIndex>)
        ensures
            final(self)@ == tabbed(old(self)@, clicked),
            fetch == (if tab_fetches(old(self)@, clicked) {
                Some(final(self)@.open_panel)
            } else {
                None
            }),
            clicked matches Some(p) ==> (p != old(self).open_panel ==> fetch == Some(p)
                && final(self).pm_infos@.len() == 0),
            clicked matches Some(p) ==> final(self).open_panel == p,
            clicked is None ==> final(self).open_panel == old(self).open_panel,
            old(self).is_first ==> fetch == Some(final(self).open_panel)
                && final(self).pm_infos@.len() == 0,
            !old(self).is_first && !(clicked matches Some(p) && p != old(self).open_panel)
                ==> fetch is None && final(self).pm_infos@ == old(self).pm_infos@,
            !final(self).is_first,
            final(self).is_needupdate_dpmloclist == old(self).is_needupdate_dpmloclist,
            final(self).api_status == old(self).api_status,
            final(self).cmd_status == old(self).cmd_status,
            final(self).dpmloc_list@ == old(self).dpmloc_list@,
            final(self).modal_loading.opened == old(self).modal_loading.opened,
            final(self).modal_loading.name@ == old(self).modal_loading.name@,
            final(self).modal_loading.txt_title@ == old(self).modal_loading.txt_title@,
    {
        let mut changed = false;
        if let Some(p) = clicked {
            if p != self.open_panel {
                changed = true;
            }
            self.open_panel = p;
        }
        if changed || self.is_first {
            self.pm_infos = Vec::new();
            self.is_first = false;
            Some(self.open_panel)
        } else {
            None
        }
    }

    /// The "installing" dialog is up exactly while a command runs.
    pub fn handle_modal(&mut self) -> (cmd: ModalCommand)
        ensures
            final(self)@ == modal_handled(old(self)@),
            cmd == modal_command(old(self)@),
            old(self).cmd_status == ECmdStatu::Running ==> cmd == ModalCommand::Show,
            old(self).cmd_status != ECmdStatu::Running && old(self).modal_loading.opened ==> cmd
                == ModalCommand::Close,
            old(self).cmd_status != ECmdStatu::Running && !old(self).modal_loading.opened ==> cmd
                == ModalCommand::Keep,
            final(self).modal_loading.opened == (old(self).cmd_status == ECmdStatu::Running),
            final(self).is_first == old(self).is_first,
            final(self).is_needupdate_dpmloclist == old(self).is_needupdate_dpmloclist,
            final(self).api_status == old(self).api_status,
            final(self).cmd_status == old(self).cmd_status,
            final(self).pm_infos@ == old(self).pm_infos@,
            final(self).dpmloc_list@ == old(self).dpmloc_list@,
            final(self).open_panel == old(self).open_panel,
            final(self).modal_loading.name@ == old(self).modal_loading.name@,
            final(self).modal_loading.txt_title@ == old(self).modal_loading.txt_title@,
    {
        if self.cmd_status == ECmdStatu::Running {
            self.modal_loading.show();
            ModalCommand::Show
        } else if self.modal_loading.drop() {
            ModalCommand::Close
        } else {
            ModalCommand::Keep
        }
    }

    /// What the body of the panel shows.
    pub fn content_view(&self) -> (v: ContentView)
        ensures
            v == content_of(self@),
            self.pm_infos@.len() > 0 ==> v == ContentView::Cards,
            self.pm_infos@.len() == 0 && self.api_status == ERequestStatu::Requesting ==> v
                == ContentView::Syncing,
            self.pm_infos@.len() == 0 && self.api_status == ERequestStatu::Error ==> v
                == ContentView::NoData,
            self.pm_infos@.len() == 0 && self.api_status == ERequestStatu::Idle ==> v
                == ContentView::Blank,
    {
        if self.pm_infos.len() > 0 {
            ContentView::Cards
        } else {
            match self.api_status {
                ERequestStatu::Requesting => ContentView::Syncing,
                ERequestStatu::Error => ContentView::NoData,
                ERequestStatu::Idle => ContentView::Blank,
            }
        }
    }
}


/// The index of the first package named `name` in `list`, from `start` on.
pub open spec fn first_named_from(list: Seq<DpmCellInfo>, name: Seq<char>, start: int) -> Option<int>
    decreases list.len() - start,
{
    if start < 0 || start >= list.len() {
        None
    } else if list[start].name@ == name {
        Some(start)
    } else {
        first_named_from(list, name, start + 1)
    }
}

/// The installed record whose scripts a card offers: for a package that is
/// installed, the first installed record of the same name, if it has scripts.
pub open spec fn scripts_source(m: PanelModel, info: DpmCellInfo) -> Option<int> {
    if installed_in(m.dpmloc_list, info.name@, info.ver@) {
        match first_named_from(m.dpmloc_list, info.name@, 0) {
            Some(i) => if m.dpmloc_list[i].scripts is Some {
                Some(i)
            } else {
                None
            },
            None => None,
        }
    } else {
        None
    }
}

/// The package argument of `dpm install` for a package: `name@ver`.
pub open spec fn package_spec(info: DpmCellInfo) -> Seq<char> {
    info.name@ + "@"@ + info.ver@
}

/// The text under "Desc:" on a card.
pub open spec fn description_of(info: DpmCellInfo) -> Seq<char> {
    if info.descript@.len() > 0 {
        info.descript@
    } else {
        "No Description"@
    }
}

/// Everything a package card shows, as values.
pub struct CardView {
    /// The heading: the package name.
    pub title: String,
    /// The package is installed in this version: the card offers "uninstall"
    /// in place of "install", and the scripts of the installed record.
    pub installed: bool,
    /// What "install" passes to `dpm install`.
    pub install_pkg: String,
    pub runtime: String,
    pub ver: String,
    /// The size, 0 where the index gives none.
    pub size: u64,
    /// The license, empty where the index gives none.
    pub license: String,
    pub desc: String,
    /// The index in the installed list of the record whose scripts are offered.
    pub scripts_from: Option<usize>,
}

impl PanelTab {
    fn first_named(&self, name: &String) -> (r: Option<usize>)
        ensures
            match r {
                Some(i) => i < self@.dpmloc_list.len() && first_named_from(self@.dpmloc_list, name@, 0)
                    == Some(i as int),
                None => first_named_from(self@.dpmloc_list, name@, 0) is None,
            },
            match r {
                Some(i) => self.dpmloc_list@[i as int].name@ == name@ && forall|j: int|
                    0 <= j < i ==> (#[trigger] self.dpmloc_list@[j]).name@ != name@,
                None => forall|j: int|
                    0 <= j < self.dpmloc_list@.len() ==> (#[trigger] self.dpmloc_list@[j]).name@
                        != name@,
            },
    {
        let n = self.dpmloc_list.len();
        let mut i: usize = 0;
        while i < n
            invariant
                n == self.dpmloc_list@.len(),
                i <= n,
                first_named_from(self@.dpmloc_list, name@, 0) == first_named_from(
                    self@.dpmloc_list,
                    name@,
                    i as int,
                ),
                forall|j: int| 0 <= j < i ==> (#[trigger] self.dpmloc_list@[j]).name@ != name@,
            decreases n - i,
        {
            if self.dpmloc_list[i].name == *name {
                return Some(i);
            }
            i = i + 1;
        }
        None
    }

    /// The card of package `info`.
    pub fn card_widget(&self, info: &DpmCellInfo) -> (v: CardView)
        ensures
            card_shows(v, *info),
            v.title@ == info.name@,
            v.install_pkg@ == info.name@ + "@"@ + info.ver@,
            v.runtime@ == info.runtime@,
            v.ver@ == info.ver@,
            info.cont_size matches Some(sz) ==> v.size == sz,
            info.cont_size is None ==> v.size == 0,
            info.license matches Some(l) ==> v.license@ == l@,
            info.license is None ==> v.license@.len() == 0,
            info.descript@.len() > 0 ==> v.desc@ == info.descript@,
            info.descript@.len() == 0 ==> v.desc@ == "No Description"@,
            v.installed == installed_in(self@.dpmloc_list, info.name@, info.ver@),
            v.installed == exists|i: int|
                0 <= i < self.dpmloc_list@.len() && (#[trigger] self.dpmloc_list@[i]).name@
                    == info.name@ && self.dpmloc_list@[i].ver@ == info.ver@,
            v.scripts_from matches Some(i) ==> (v.installed && i < self.dpmloc_list@.len()
                && self.dpmloc_list@[i as int].name@ == info.name@
                && self.dpmloc_list@[i as int].scripts is Some && forall|j: int|
                0 <= j < i ==> (#[trigger] self.dpmloc_list@[j]).name@ != info.name@),
            v.scripts_from is None && v.installed ==> forall|i: int|
                0 <= i < self.dpmloc_list@.len() && (#[trigger] self.dpmloc_list@[i]).name@
                    == info.name@ && (forall|j: int|
                    0 <= j < i ==> (#[trigger] self.dpmloc_list@[j]).name@ != info.name@) ==> (
                self.dpmloc_list@[i].scripts is None),
            match v.scripts_from {
                Some(i) => scripts_source(self@, *info) == Some(i as int),
                None => scripts_source(self@, *info) is None,
            },
    {
        let loc_info = self.first_named(&info.name);
        let installed = self.is_installed_pm(info.name.as_str(), info.ver.as_str());
        let scripts_from = if installed {
            match loc_info {
                Some(i) => if self.dpmloc_list[i].scripts.is_some() {
                    Some(i)
                } else {
                    None
                },
                None => None,
            }
        } else {
            None
        };
        let mut v = card_base(info);
        v.installed = installed;
        v.scripts_from = scripts_from;
        v
    }
}

/// The fields of a card that come from the package record alone.
pub open spec fn card_shows(v: CardView, info: DpmCellInfo) -> bool {
    &&& v.title@ == info.name@
    &&& v.install_pkg@ == package_spec(info)
    &&& v.runtime@ == info.runtime@
    &&& v.ver@ == info.ver@
    &&& v.size == (match info.cont_size {
        Some(s) => s,
        None => 0,
    })
    &&& v.license@ == (match info.license {
        Some(l) => l@,
        None => Seq::<char>::empty(),
    })
    &&& v.desc@ == description_of(info)
}

/// The card of package `info` as a panel that knows of no installed package
/// shows it.
pub fn card_base(info: &DpmCellInfo) -> (v: CardView)
    ensures
        card_shows(v, *info),
        v.title@ == info.name@,
        v.install_pkg@ == info.name@ + "@"@ + info.ver@,
        v.runtime@ == info.runtime@,
        v.ver@ == info.ver@,
        info.cont_size matches Some(sz) ==> v.size == sz,
        info.cont_size is None ==> v.size == 0,
        info.license matches Some(l) ==> v.license@ == l@,
        info.license is None ==> v.license@.len() == 0,
        info.descript@.len() > 0 ==> v.desc@ == info.descript@,
        info.descript@.len() == 0 ==> v.desc@ == "No Description"@,
        !v.installed,
        v.scripts_from is None,
{
    let install_pkg = info.name.clone().concat("@").concat(info.ver.as_str());
    let size = match info.cont_size {
        Some(s) => s,
        None => 0,
    };
    let license = match &info.license {
        Some(l) => l.clone(),
        None => String::new(),
    };
    let desc = if !info.descript.as_str().is_empty() {
        info.descript.clone()
    } else {
        "No Description".to_owned()
    };
    CardView {
        title: info.name.clone(),
        installed: false,
        install_pkg,
        runtime: info.runtime.clone(),
        ver: info.ver.clone(),
        size,
        license,
        desc,
        scripts_from: None,
    }
}

/// A `dpm` command to run in the background, with the tag its status
/// messages carry.
pub struct CmdPlan {
    pub program: String,
    pub args: Vec<String>,
    pub tag: String,
}

impl CmdPlan {
    /// The message sent before the command starts.
    pub fn started(&self) -> (m: (ECmdStatu, String))
        ensures
            m.0 == ECmdStatu::Running,
            m.1@ == self.tag@,
    {
        (ECmdStatu::Running, self.tag.clone())
    }

    /// The messages sent once the command is over, in order; `failed` says
    /// that it could not be run at all.
    pub fn finished(&self, failed: bool) -> (ms: Vec<(ECmdStatu, String)>)
        ensures
            ms@.len() == (if failed { 2int } else { 1int }),
            failed ==> ms@[0].0 == ECmdStatu::Error && ms@[0].1@ == self.tag@,
            ms@.last().0 == ECmdStatu::Idle,
            ms@.last().1@ == self.tag@,
    {
        if failed {
            vec![(ECmdStatu::Error, self.tag.clone()), (ECmdStatu::Idle, self.tag.clone())]
        } else {
            vec![(ECmdStatu::Idle, self.tag.clone())]
        }
    }
}

impl PanelTab {
    /// `dpm install <pm>`, tagged "install".
    pub fn shell_dpm_install(pm: &str) -> (p: CmdPlan)
        ensures
            p.program@ == "dpm"@,
            p.args@.len() == 2,
            p.args@[0]@ == "install"@,
            p.args@[1]@ == pm@,
            p.tag@ == "install"@,
    {
        CmdPlan {
            program: "dpm".to_owned(),
            args: vec!["install".to_owned(), pm.to_owned()],
            tag: "install".to_owned(),
        }
    }

    /// `dpm list`, tagged "list".
    pub fn shell_dpm_list() -> (p: CmdPlan)
        ensures
            p.program@ == "dpm"@,
            p.args@.len() == 1,
            p.args@[0]@ == "list"@,
            p.tag@ == "list"@,
    {
        CmdPlan { program: "dpm".to_owned(), args: vec!["list".to_owned()], tag: "list".to_owned() }
    }

    /// Whether the output of `dpm list` is read as a package list: only when
    /// the command succeeded and wrote nothing to its error stream.
    pub fn list_output_accepted(success: bool, stderr_len: usize) -> (r: bool)
        ensures
            r == (success && stderr_len == 0),
    {
        success && stderr_len == 0
    }

    /// The address asked for the list of tab `idx` on a client built for `os`
    /// with index server `host`, or the URL error.
    pub fn async_remote_list(idx: &PanelIndex, os: TargetOs, host: &str) -> (r: Result<
        String,
        ApiError,
    >)
        ensures
            match url_parse(joined(host@, pm_type_of(*idx, os))) {
                Some(u) => r matches Ok(s) && s@ == u,
                None => r matches Err(ApiError::UrlError(_)),
            },
    {
        let pm_type = Self::get_open_pmtype(idx, os);
        get_pmlist(host, pm_type)
    }

    /// The message sent before the list of a tab is asked for.
    pub fn pmlist_request_started() -> (s: ERequestStatu)
        ensures
            s == ERequestStatu::Requesting,
    {
        ERequestStatu::Requesting
    }

    /// What is sent once the list of a tab was asked for: the list, when it
    /// came, and then the new request state.
    pub fn api_get_pmlist(ret: Result<Vec<DpmCellInfo>, ApiError>) -> (r: (
        Option<Vec<DpmCellInfo>>,
        ERequestStatu,
    ))
        ensures
            match ret {
                Ok(l) => r.0 matches Some(v) && v@ == l@ && r.1 == ERequestStatu::Idle,
                Err(_) => r.0 is None && r.1 == ERequestStatu::Error,
            },
    {
        match ret {
            Ok(l) => (Some(l), ERequestStatu::Idle),
            Err(_) => (None, ERequestStatu::Error),
        }
    }
}

} // verus!
