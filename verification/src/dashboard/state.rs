//! The state of the dashboard and its reactions to keys and clicks.

use vstd::prelude::*;
use crate::text::{texts, owned, holds_text, same_text};
use crate::flowchart::FlowchartState;
use crate::text_map::TextMap;
use crate::workflow::discovery::WorkflowDefinition;
use crate::workflow::types::{WorkflowMetadata, WorkflowCategory};

verus! {

/// A key as far as the dashboard tells keys apart.
#[derive(Debug, Clone, Copy, PartialEq, Eq, Structural)]
pub enum Key {
    Char(char),
    Up,
    Down,
    Left,
    Right,
    Tab,
    Enter,
    PageUp,
    PageDown,
    Home,
    Other,
}

/// What the mouse did, as far as the dashboard tells it apart.
#[derive(Debug, Clone, Copy, PartialEq, Eq, Structural)]
pub enum MouseKind {
    LeftDown,
    ScrollUp,
    ScrollDown,
    Other,
}

/// A rectangle of the terminal.
#[derive(Debug, Clone, Copy, PartialEq, Eq, Structural, Default)]
pub struct Area {
    pub x: u16,
    pub y: u16,
    pub width: u16,
    pub height: u16,
}

impl Area {
    /// The column lies within the rectangle.
    pub open spec fn spans(self, x: u16) -> bool {
        self.x <= x < self.x + self.width
    }

    /// Whether the column lies within the rectangle.
    pub fn holds_column(&self, x: u16) -> (b: bool)
        ensures
            b == self.spans(x),
    {
        x >= self.x && (x as u32) < (self.x as u32) + (self.width as u32)
    }
}

/// A click: where it fell and when, in milliseconds.
#[derive(Debug, Clone, Copy, PartialEq, Eq, Structural)]
pub struct Click {
    pub x: u16,
    pub y: u16,
    pub at: u64,
}

/// A line of the sidebar: the heading of a category, or a workflow by its
/// place among the workflows.
#[derive(Debug, Clone, PartialEq, Eq)]
#[allow(inconsistent_fields)]
pub enum SidebarItem {
    Category { name: String, count: usize },
    Workflow { index: usize },
}

#[allow(inconsistent_fields)]
pub enum SidebarItemView {
    Category { name: Seq<char>, count: nat },
    Workflow { index: nat },
}

impl View for SidebarItem {
    type V = SidebarItemView;

    open spec fn view(&self) -> SidebarItemView {
        match *self {
            SidebarItem::Category { name, count } => SidebarItemView::Category {
                name: name@,
                count: count as nat,
            },
            SidebarItem::Workflow { index } => SidebarItemView::Workflow { index: index as nat },
        }
    }
}

/// The views of a sequence of sidebar lines.
pub open spec fn item_views(v: Seq<SidebarItem>) -> Seq<SidebarItemView> {
    v.map_values(|i: SidebarItem| i@)
}

/// A message over the dashboard.
#[derive(Debug, Clone, PartialEq, Eq)]
pub struct PopupState {
    pub title: String,
    pub message: String,
    /// An address that the user may open.
    pub url: Option<String>,
}

/// What the host has to do after a key or a click.
#[derive(Debug, Clone, PartialEq, Eq)]
pub enum Request {
    Nothing,
    /// Another workflow is selected: check its prerequisites anew.
    SelectionChanged,
    /// Run the selected workflow.
    RunSelected,
    /// Open the address in the browser.
    OpenUrl(String),
}

/// The categories in the order of their display names.
pub open spec fn category_order() -> Seq<WorkflowCategory> {
    seq![
        WorkflowCategory::ConstructionCloud,
        WorkflowCategory::DataManagement,
        WorkflowCategory::DesignAutomation,
        WorkflowCategory::EndToEnd,
        WorkflowCategory::ModelDerivative,
        WorkflowCategory::ObjectStorage,
        WorkflowCategory::RealityCapture,
        WorkflowCategory::Webhooks,
    ]
}

/// The places of the workflows of a category among the first `n`
/// workflows, as lines of the sidebar.
pub open spec fn members(workflows: Seq<WorkflowMetadata>, category: WorkflowCategory, n: int)
    -> Seq<SidebarItemView>
    decreases n,
{
    if n <= 0 {
        Seq::empty()
    } else {
        let earlier = members(workflows, category, n - 1);
        if workflows[n - 1].category == category {
            earlier.push(SidebarItemView::Workflow { index: (n - 1) as nat })
        } else {
            earlier
        }
    }
}

/// The lines of the sidebar for one category: nothing where it has no
/// workflow; else its heading with the number of its workflows, followed
/// by the workflows unless the category is collapsed.
pub open spec fn section(
    workflows: Seq<WorkflowMetadata>,
    collapsed: Seq<Seq<char>>,
    category: WorkflowCategory,
) -> Seq<SidebarItemView> {
    let all = members(workflows, category, workflows.len() as int);
    if all.len() == 0 {
        Seq::empty()
    } else {
        seq![SidebarItemView::Category { name: category.label(), count: all.len() }] + (
        if collapsed.contains(category.label()) {
            Seq::empty()
        } else {
            all
        })
    }
}

/// The lines of the sidebar for the first `n` categories in the order of
/// their names.
pub open spec fn sidebar_lines(workflows: Seq<WorkflowMetadata>, collapsed: Seq<Seq<char>>, n: int)
    -> Seq<SidebarItemView>
    decreases n,
{
    if n <= 0 {
        Seq::empty()
    } else {
        sidebar_lines(workflows, collapsed, n - 1) + section(
            workflows,
            collapsed,
            category_order()[n - 1],
        )
    }
}

/// The line at the place is a workflow.
pub open spec fn is_workflow_line(items: Seq<SidebarItem>, place: int) -> bool {
    0 <= place < items.len() && items[place] is Workflow
}

/// The place next to `place` in a list of `n` lines, around the list:
/// below it, or above it.
pub open spec fn beside(n: int, place: int, down: bool) -> int {
    if down {
        if place + 1 >= n {
            0
        } else {
            place + 1
        }
    } else {
        if place <= 0 {
            n - 1
        } else {
            place - 1
        }
    }
}

/// The first place that holds a workflow, going from `place` in the
/// direction given around the list, within `tries` steps.
pub open spec fn seek(items: Seq<SidebarItem>, place: int, down: bool, tries: int) -> Option<int>
    decreases tries,
{
    if tries <= 0 || items.len() == 0 {
        None
    } else {
        let next = beside(items.len() as int, place, down);
        if is_workflow_line(items, next) {
            Some(next)
        } else {
            seek(items, next, down, tries - 1)
        }
    }
}

/// The line that counts as selected: the first where nothing is selected,
/// the last where the selection lies behind the list.
pub open spec fn current_line(items: Seq<SidebarItem>, selected: Option<usize>) -> int {
    match selected {
        Some(s) => if s < items.len() {
            s as int
        } else {
            items.len() - 1
        },
        None => 0,
    }
}

/// The selection after a move down or up: the next workflow in that
/// direction, around the list; the line that counts as selected where the
/// list shows no workflow; nothing where the list is empty.
pub open spec fn moved(items: Seq<SidebarItem>, selected: Option<usize>, down: bool) -> Option<
    int,
> {
    if items.len() == 0 {
        None
    } else {
        match seek(items, current_line(items, selected), down, items.len() as int) {
            Some(p) => Some(p),
            None => Some(current_line(items, selected)),
        }
    }
}

/// The state of the dashboard.
#[derive(Debug, Clone)]
pub struct Dashboard {
    pub workflows: Vec<WorkflowMetadata>,
    pub sidebar_items: Vec<SidebarItem>,
    /// The selected line of the sidebar.
    pub selected: Option<usize>,
    /// The names of the categories whose workflows are hidden.
    pub collapsed_categories: Vec<String>,
    pub should_quit: bool,
    /// The tab of the details: overview, steps, flowchart, assets, YAML.
    pub detail_tab: usize,
    pub steps_scroll: usize,
    pub flowchart_state: FlowchartState,
    pub sidebar_area: Area,
    pub detail_area: Area,
    pub help_bar_area: Area,
    /// The share of the width that the sidebar takes, in hundredths.
    pub sidebar_percent: u16,
    pub console_height: u16,
    pub popup: Option<PopupState>,
    /// A click asked for the selected workflow to be run.
    pub pending_run: bool,
    /// The last single click on a workflow.
    pub last_click: Option<Click>,
    pub assets_scroll: usize,
    pub selected_asset: usize,
    /// The asset that the user asked to download.
    pub pending_download: Option<usize>,
    /// The lines of the console, oldest first.
    pub logs: Vec<String>,
    /// The workflows by identifier.
    pub workflow_definitions: TextMap<WorkflowDefinition>,
    /// The workflow whose run the dashboard follows.
    pub executing_workflow_id: Option<String>,
    /// The place of the step that runs.
    pub executing_step: Option<usize>,
    /// The places of the steps that have ended.
    pub completed_steps: Vec<usize>,
}

fn category_at(place: usize) -> (c: WorkflowCategory)
    requires
        place < 8,
    ensures
        c == category_order()[place as int],
{
    if place == 0 {
        WorkflowCategory::ConstructionCloud
    } else if place == 1 {
        WorkflowCategory::DataManagement
    } else if place == 2 {
        WorkflowCategory::DesignAutomation
    } else if place == 3 {
        WorkflowCategory::EndToEnd
    } else if place == 4 {
        WorkflowCategory::ModelDerivative
    } else if place == 5 {
        WorkflowCategory::ObjectStorage
    } else if place == 6 {
        WorkflowCategory::RealityCapture
    } else {
        WorkflowCategory::Webhooks
    }
}

/// The number after a step down from `n`, no lower than nothing.
pub open spec fn lowered(n: usize, by: usize) -> usize {
    if n >= by {
        (n - by) as usize
    } else {
        0
    }
}

/// The number after a step up from `n`, no higher than the type holds.
pub open spec fn raised(n: usize, by: usize) -> usize {
    if n + by > usize::MAX {
        usize::MAX
    } else {
        (n + by) as usize
    }
}

fn lower(n: usize, by: usize) -> (r: usize)
    ensures
        r == lowered(n, by),
{
    if n >= by {
        n - by
    } else {
        0
    }
}

fn raise(n: usize, by: usize) -> (r: usize)
    ensures
        r == raised(n, by),
{
    if n > usize::MAX - by {
        usize::MAX
    } else {
        n + by
    }
}

impl Dashboard {
    /// A dashboard for the workflows given: the first line is selected
    /// where there is a workflow, the overview is shown, and nothing is
    /// collapsed.
    pub fn new(workflows: Vec<WorkflowMetadata>, definitions: TextMap<WorkflowDefinition>) -> (d:
        Self)
        ensures
            d.workflows == workflows,
            d.workflow_definitions == definitions,
            d.executing_workflow_id is None,
            d.executing_step is None,
            d.completed_steps@.len() == 0,
            d.selected == (if workflows@.len() > 0 {
                Some(0usize)
            } else {
                None
            }),
            d.collapsed_categories@.len() == 0,
            item_views(d.sidebar_items@) == sidebar_lines(workflows@, Seq::empty(), 8),
            !d.should_quit,
            d.detail_tab == 0,
            d.steps_scroll == 0,
            d.flowchart_state.scroll == 0,
            d.flowchart_state.executing_step is None,
            d.flowchart_state.completed_steps@.len() == 0,
            d.sidebar_percent == 30,
            d.console_height == 10,
            d.popup is None,
            !d.pending_run,
            d.last_click is None,
            d.assets_scroll == 0,
            d.selected_asset == 0,
            d.pending_download is None,
            texts(d.logs@) == seq!["Welcome to RAPS CLI Demo Workflows! Press ? for help."@],
    {
        let mut logs: Vec<String> = Vec::new();
        logs.push(owned("Welcome to RAPS CLI Demo Workflows! Press ? for help."));
        assert(texts(logs@) =~= seq!["Welcome to RAPS CLI Demo Workflows! Press ? for help."@]);
        let selected = if workflows.len() > 0 {
            Some(0)
        } else {
            None
        };
        let mut d = Dashboard {
            workflows,
            sidebar_items: Vec::new(),
            selected,
            collapsed_categories: Vec::new(),
            should_quit: false,
            detail_tab: 0,
            steps_scroll: 0,
            flowchart_state: FlowchartState {
                scroll: 0,
                executing_step: None,
                completed_steps: Vec::new(),
            },
            sidebar_area: Area { x: 0, y: 0, width: 0, height: 0 },
            detail_area: Area { x: 0, y: 0, width: 0, height: 0 },
            help_bar_area: Area { x: 0, y: 0, width: 0, height: 0 },
            sidebar_percent: 30,
            console_height: 10,
            popup: None,
            pending_run: false,
            last_click: None,
            assets_scroll: 0,
            selected_asset: 0,
            pending_download: None,
            logs,
            workflow_definitions: definitions,
            executing_workflow_id: None,
            executing_step: None,
            completed_steps: Vec::new(),
        };
        assert(texts(d.collapsed_categories@) =~= Seq::<Seq<char>>::empty());
        d.rebuild_sidebar_items();
        d
    }

    /// Nothing but the lines of the sidebar differs between the two
    /// states.
    pub open spec fn same_but_lines(self, other: Dashboard) -> bool {
        &&& self.workflows == other.workflows
        &&& self.selected == other.selected
        &&& self.collapsed_categories == other.collapsed_categories
        &&& self.should_quit == other.should_quit
        &&& self.detail_tab == other.detail_tab
        &&& self.steps_scroll == other.steps_scroll
        &&& self.flowchart_state == other.flowchart_state
        &&& self.sidebar_area == other.sidebar_area
        &&& self.detail_area == other.detail_area
        &&& self.help_bar_area == other.help_bar_area
        &&& self.sidebar_percent == other.sidebar_percent
        &&& self.console_height == other.console_height
        &&& self.popup == other.popup
        &&& self.pending_run == other.pending_run
        &&& self.last_click == other.last_click
        &&& self.assets_scroll == other.assets_scroll
        &&& self.selected_asset == other.selected_asset
        &&& self.pending_download == other.pending_download
        &&& self.logs == other.logs
        &&& self.workflow_definitions == other.workflow_definitions
        &&& self.executing_workflow_id == other.executing_workflow_id
        &&& self.executing_step == other.executing_step
        &&& self.completed_steps == other.completed_steps
    }

    /// Builds the lines of the sidebar anew: the categories that have
    /// workflows, in the order of their names, each with its workflows
    /// unless it is collapsed.
    pub fn rebuild_sidebar_items(&mut self)
        ensures
            item_views(final(self).sidebar_items@) == sidebar_lines(
                old(self).workflows@,
                texts(old(self).collapsed_categories@),
                8,
            ),
            final(self).same_but_lines(*old(self)),
    {
        let ghost workflows = self.workflows@;
        let ghost collapsed = texts(self.collapsed_categories@);
        let mut items: Vec<SidebarItem> = Vec::new();
        let mut c: usize = 0;
        assert(item_views(items@) =~= sidebar_lines(workflows, collapsed, 0));
        while c < 8
            invariant
                c <= 8,
                workflows == self.workflows@,
                collapsed == texts(self.collapsed_categories@),
                *self == *old(self),
                item_views(items@) == sidebar_lines(workflows, collapsed, c as int),
            decreases 8 - c,
        {
            let category = category_at(c);
            let ghost before = item_views(items@);
            let mut found: Vec<SidebarItem> = Vec::new();
            let mut i: usize = 0;
            assert(item_views(found@) =~= members(workflows, category, 0));
            while i < self.workflows.len()
                invariant
                    i <= self.workflows@.len(),
                    workflows == self.workflows@,
                    item_views(found@) == members(workflows, category, i as int),
                decreases self.workflows@.len() - i,
            {
                let ghost prior = item_views(found@);
                if self.workflows[i].category == category {
                    found.push(SidebarItem::Workflow { index: i });
                    assert(item_views(found@) =~= prior.push(
                        SidebarItemView::Workflow { index: i as nat },
                    ));
                }
                i = i + 1;
            }
            assert(item_views(found@).len() == found@.len());
            if found.len() > 0 {
                let name = category.to_string();
                let hidden = holds_text(&self.collapsed_categories, name.as_str());
                let heading = SidebarItem::Category { name, count: found.len() };
                items.push(heading);
                assert(item_views(items@) =~= before.push(heading@));
                if !hidden {
                    let ghost with_heading = item_views(items@);
                    let mut k: usize = 0;
                    while k < found.len()
                        invariant
                            k <= found@.len(),
                            item_views(items@) == with_heading + item_views(found@).take(k as int),
                        decreases found@.len() - k,
                    {
                        let ghost so_far = item_views(items@);
                        let line = match &found[k] {
                            SidebarItem::Workflow { index } => SidebarItem::Workflow {
                                index: *index,
                            },
                            SidebarItem::Category { name, count } => SidebarItem::Category {
                                name: name.clone(),
                                count: *count,
                            },
                        };
                        assert(line@ == found@[k as int]@);
                        items.push(line);
                        k = k + 1;
                        assert(item_views(items@) =~= so_far.push(line@));
                        assert(item_views(found@).take(k as int) =~= item_views(found@).take(
                            k - 1,
                        ).push(line@));
                    }
                    assert(item_views(found@).take(found@.len() as int) =~= item_views(found@));
                }
                assert(item_views(items@) =~= before + section(workflows, collapsed, category));
            } else {
                assert(item_views(items@) =~= before + section(workflows, collapsed, category));
            }
            c = c + 1;
        }
        self.sidebar_items = items;
    }

    fn step_to(&self, down: bool) -> (r: Option<usize>)
        ensures
            match moved(self.sidebar_items@, self.selected, down) {
                Some(p) => r == Some(p as usize) && 0 <= p < self.sidebar_items@.len(),
                None => r is None,
            },
    {
        let n = self.sidebar_items.len();
        if n == 0 {
            return None;
        }
        let current: usize = match self.selected {
            Some(s) => if s < n {
                s
            } else {
                n - 1
            },
            None => 0,
        };
        let mut place = current;
        let mut left: usize = n;
        while left > 0
            invariant
                n == self.sidebar_items@.len(),
                0 < n,
                left <= n,
                place < n,
                current < n,
                current == current_line(self.sidebar_items@, self.selected),
                seek(self.sidebar_items@, current as int, down, n as int) == seek(
                    self.sidebar_items@,
                    place as int,
                    down,
                    left as int,
                ),
            decreases left,
        {
            let next = if down {
                if place + 1 >= n {
                    0
                } else {
                    place + 1
                }
            } else {
                if place == 0 {
                    n - 1
                } else {
                    place - 1
                }
            };
            match &self.sidebar_items[next] {
                SidebarItem::Workflow { .. } => {
                    return Some(next);
                },
                _ => {},
            }
            place = next;
            left = left - 1;
        }
        Some(current)
    }

    /// Everything but the selection is as it was.
    pub open spec fn same_but_selection(self, other: Dashboard) -> bool {
        &&& self.workflows == other.workflows
        &&& self.sidebar_items == other.sidebar_items
        &&& self.collapsed_categories == other.collapsed_categories
        &&& self.should_quit == other.should_quit
        &&& self.detail_tab == other.detail_tab
        &&& self.steps_scroll == other.steps_scroll
        &&& self.flowchart_state == other.flowchart_state
        &&& self.sidebar_area == other.sidebar_area
        &&& self.detail_area == other.detail_area
        &&& self.help_bar_area == other.help_bar_area
        &&& self.sidebar_percent == other.sidebar_percent
        &&& self.console_height == other.console_height
        &&& self.popup == other.popup
        &&& self.pending_run == other.pending_run
        &&& self.last_click == other.last_click
        &&& self.assets_scroll == other.assets_scroll
        &&& self.selected_asset == other.selected_asset
        &&& self.pending_download == other.pending_download
        &&& self.logs == other.logs
        &&& self.workflow_definitions == other.workflow_definitions
        &&& self.executing_workflow_id == other.executing_workflow_id
        &&& self.executing_step == other.executing_step
        &&& self.completed_steps == other.completed_steps
    }

    /// Selects the next workflow below, around the list.
    pub fn next_workflow(&mut self)
        ensures
            final(self).same_but_selection(*old(self)),
            match moved(old(self).sidebar_items@, old(self).selected, true) {
                Some(p) => final(self).selected == Some(p as usize),
                None => final(self).selected is None,
            },
    {
        self.selected = self.step_to(true);
    }

    /// Selects the next workflow above, around the list.
    pub fn previous_workflow(&mut self)
        ensures
            final(self).same_but_selection(*old(self)),
            match moved(old(self).sidebar_items@, old(self).selected, false) {
                Some(p) => final(self).selected == Some(p as usize),
                None => final(self).selected is None,
            },
    {
        self.selected = self.step_to(false);
    }

    /// The workflow that is selected: the one on the selected line where
    /// that line is a workflow.
    pub fn get_selected_workflow(&self) -> (r: Option<&WorkflowMetadata>)
        ensures
            match r {
                Some(w) => self.selected is Some && is_workflow_line(
                    self.sidebar_items@,
                    self.selected->0 as int,
                ) && self.sidebar_items@[self.selected->0 as int]->Workflow_index
                    < self.workflows@.len() && *w
                    == self.workflows@[self.sidebar_items@[self.selected->0 as int]->Workflow_index as int],
                None => self.selected is None || !is_workflow_line(
                    self.sidebar_items@,
                    self.selected->0 as int,
                ) || self.sidebar_items@[self.selected->0 as int]->Workflow_index
                    >= self.workflows@.len(),
            },
    {
        match self.selected {
            Some(place) => {
                if place < self.sidebar_items.len() {
                    match &self.sidebar_items[place] {
                        SidebarItem::Workflow { index } => {
                            if *index < self.workflows.len() {
                                Some(&self.workflows[*index])
                            } else {
                                None
                            }
                        },
                        _ => None,
                    }
                } else {
                    None
                }
            },
            None => None,
        }
    }
}


/// What of the dashboard a key can change.
pub struct Controls {
    pub should_quit: bool,
    pub detail_tab: usize,
    pub steps_scroll: usize,
    pub flowchart_scroll: usize,
    pub selected: Option<usize>,
    pub sidebar_percent: u16,
    pub console_height: u16,
    pub popup_open: bool,
    pub assets_scroll: usize,
    pub selected_asset: usize,
    pub pending_download: Option<usize>,
}

/// The tab shows a text that scrolls: the steps or the YAML.
pub open spec fn is_text_tab(tab: usize) -> bool {
    tab == 1 || tab == 4
}

/// The place of the last asset; the first where there is none.
pub open spec fn last_asset(assets_count: usize) -> usize {
    lowered(assets_count, 1)
}

/// The selection as a place, where the list is not empty.
pub open spec fn selection_after(items: Seq<SidebarItem>, selected: Option<usize>, down: bool)
    -> Option<usize> {
    match moved(items, selected, down) {
        Some(p) => Some(p as usize),
        None => None,
    }
}

/// The key that a key stands for: `k`, `j`, `h` and `l` stand for the
/// arrows.
pub open spec fn plain_key(key: Key) -> Key {
    match key {
        Key::Char(ch) => if ch == 'k' {
            Key::Up
        } else if ch == 'j' {
            Key::Down
        } else if ch == 'h' {
            Key::Left
        } else if ch == 'l' {
            Key::Right
        } else {
            key
        },
        _ => key,
    }
}

/// What a key makes of the dashboard while no message is shown.
pub open spec fn after_key(c: Controls, items: Seq<SidebarItem>, key: Key, assets_count: usize)
    -> Controls {
    match plain_key(key) {
        Key::Char(ch) => if ch == 'q' {
            Controls { should_quit: true, ..c }
        } else if ch == '1' {
            Controls { detail_tab: 0, steps_scroll: 0, flowchart_scroll: 0, ..c }
        } else if ch == '2' {
            Controls { detail_tab: 1, steps_scroll: 0, ..c }
        } else if ch == '3' {
            Controls { detail_tab: 2, flowchart_scroll: 0, ..c }
        } else if ch == '4' {
            Controls { detail_tab: 3, assets_scroll: 0, ..c }
        } else if ch == '5' {
            Controls { detail_tab: 4, steps_scroll: 0, ..c }
        } else if ch == 'd' || ch == 'D' {
            if c.detail_tab == 3 {
                Controls { pending_download: Some(c.selected_asset), ..c }
            } else {
                c
            }
        } else if ch == '[' {
            if c.sidebar_percent > 15 {
                Controls { sidebar_percent: (c.sidebar_percent - 5) as u16, ..c }
            } else {
                c
            }
        } else if ch == ']' {
            if c.sidebar_percent < 60 {
                Controls { sidebar_percent: (c.sidebar_percent + 5) as u16, ..c }
            } else {
                c
            }
        } else if ch == '-' {
            if c.console_height > 5 {
                Controls { console_height: (c.console_height - 2) as u16, ..c }
            } else {
                c
            }
        } else if ch == '+' || ch == '=' {
            if c.console_height < 25 {
                Controls { console_height: (c.console_height + 2) as u16, ..c }
            } else {
                c
            }
        } else {
            c
        },
        Key::Up => if is_text_tab(c.detail_tab) {
            Controls { steps_scroll: lowered(c.steps_scroll, 1), ..c }
        } else if c.detail_tab == 2 {
            Controls { flowchart_scroll: lowered(c.flowchart_scroll, 1), ..c }
        } else if c.detail_tab == 3 {
            Controls { selected_asset: lowered(c.selected_asset, 1), ..c }
        } else if c.detail_tab == 0 {
            Controls { selected: selection_after(items, c.selected, false), ..c }
        } else {
            c
        },
        Key::Down => if is_text_tab(c.detail_tab) {
            Controls { steps_scroll: raised(c.steps_scroll, 1), ..c }
        } else if c.detail_tab == 2 {
            Controls { flowchart_scroll: raised(c.flowchart_scroll, 1), ..c }
        } else if c.detail_tab == 3 {
            if c.selected_asset < last_asset(assets_count) {
                Controls { selected_asset: (c.selected_asset + 1) as usize, ..c }
            } else {
                c
            }
        } else if c.detail_tab == 0 {
            Controls { selected: selection_after(items, c.selected, true), ..c }
        } else {
            c
        },
        Key::Left => Controls { detail_tab: lowered(c.detail_tab, 1), ..c },
        Key::Right => if c.detail_tab < 4 {
            Controls { detail_tab: (c.detail_tab + 1) as usize, ..c }
        } else {
            c
        },
        Key::Tab => Controls {
            detail_tab: if c.detail_tab >= 4 {
                0
            } else {
                (c.detail_tab + 1) as usize
            },
            steps_scroll: 0,
            flowchart_scroll: 0,
            ..c
        },
        Key::Enter => c,
        Key::PageUp => if is_text_tab(c.detail_tab) {
            Controls { steps_scroll: lowered(c.steps_scroll, 5), ..c }
        } else if c.detail_tab == 2 {
            Controls { flowchart_scroll: lowered(c.flowchart_scroll, 5), ..c }
        } else if c.detail_tab == 3 {
            Controls { selected_asset: lowered(c.selected_asset, 5), ..c }
        } else {
            c
        },
        Key::PageDown => if is_text_tab(c.detail_tab) {
            Controls { steps_scroll: raised(c.steps_scroll, 5), ..c }
        } else if c.detail_tab == 2 {
            Controls { flowchart_scroll: raised(c.flowchart_scroll, 5), ..c }
        } else if c.detail_tab == 3 {
            Controls {
                selected_asset: if raised(c.selected_asset, 5) < last_asset(assets_count) {
                    raised(c.selected_asset, 5)
                } else {
                    last_asset(assets_count)
                },
                ..c
            }
        } else {
            c
        },
        Key::Home => Controls {
            steps_scroll: 0,
            assets_scroll: 0,
            selected_asset: 0,
            flowchart_scroll: 0,
            ..c
        },
        Key::Other => c,
    }
}

/// The key moves the selection of the sidebar.
pub open spec fn moves_selection(tab: usize, key: Key) -> bool {
    tab == 0 && (key == Key::Up || key == Key::Down || key == Key::Char('k') || key == Key::Char(
        'j',
    ))
}

impl Dashboard {
    /// What of the dashboard a key can change.
    pub open spec fn controls(&self) -> Controls {
        Controls {
            should_quit: self.should_quit,
            detail_tab: self.detail_tab,
            steps_scroll: self.steps_scroll,
            flowchart_scroll: self.flowchart_state.scroll,
            selected: self.selected,
            sidebar_percent: self.sidebar_percent,
            console_height: self.console_height,
            popup_open: self.popup is Some,
            assets_scroll: self.assets_scroll,
            selected_asset: self.selected_asset,
            pending_download: self.pending_download,
        }
    }

    /// What no key changes is as it was.
    pub open spec fn same_beyond_controls(self, other: Dashboard) -> bool {
        &&& self.workflows == other.workflows
        &&& self.sidebar_items == other.sidebar_items
        &&& self.collapsed_categories == other.collapsed_categories
        &&& self.flowchart_state.executing_step == other.flowchart_state.executing_step
        &&& self.flowchart_state.completed_steps == other.flowchart_state.completed_steps
        &&& self.sidebar_area == other.sidebar_area
        &&& self.detail_area == other.detail_area
        &&& self.help_bar_area == other.help_bar_area
        &&& self.pending_run == other.pending_run
        &&& self.last_click == other.last_click
        &&& self.logs == other.logs
        &&& self.workflow_definitions == other.workflow_definitions
        &&& self.executing_workflow_id == other.executing_workflow_id
        &&& self.executing_step == other.executing_step
        &&& self.completed_steps == other.completed_steps
    }

    /// Reacts to a key. While a message is shown, any key closes it, and
    /// `o` asks the host to open the address of the message, if it has one.
    /// Else the key acts on the tab that is shown; `Enter` asks the host
    /// to run the selected workflow, and a move of the selection asks it
    /// to check the prerequisites anew. `assets_count` is the number of
    /// assets on the assets tab.
    pub fn handle_key(&mut self, key: Key, assets_count: usize) -> (request: Request)
        ensures
            final(self).same_beyond_controls(*old(self)),
            old(self).popup is Some ==> {
                &&& final(self).popup is None
                &&& final(self).controls() == (Controls {
                    popup_open: false,
                    ..old(self).controls()
                })
                &&& request == (if (key == Key::Char('o') || key == Key::Char('O')) && old(self).popup->0.url is Some {
                    Request::OpenUrl(old(self).popup->0.url->0)
                } else {
                    Request::Nothing
                })
            },
            old(self).popup is None ==> {
                &&& final(self).popup is None
                &&& final(self).controls() == after_key(
                    old(self).controls(),
                    old(self).sidebar_items@,
                    key,
                    assets_count,
                )
                &&& request == (if key == Key::Enter {
                    Request::RunSelected
                } else if moves_selection(old(self).detail_tab, key) {
                    Request::SelectionChanged
                } else {
                    Request::Nothing
                })
            },
    {
        if self.popup.is_some() {
            let mut shown: Option<PopupState> = None;
            core::mem::swap(&mut shown, &mut self.popup);
            let wants_open = match key {
                Key::Char(ch) => ch == 'o' || ch == 'O',
                _ => false,
            };
            if wants_open {
                match shown {
                    Some(popup) => match popup.url {
                        Some(url) => {
                            return Request::OpenUrl(url);
                        },
                        None => {},
                    },
                    None => {},
                }
            }
            return Request::Nothing;
        }
        let key = match key {
            Key::Char(ch) => if ch == 'k' {
                Key::Up
            } else if ch == 'j' {
                Key::Down
            } else if ch == 'h' {
                Key::Left
            } else if ch == 'l' {
                Key::Right
            } else {
                key
            },
            _ => key,
        };
        let text_tab = self.detail_tab == 1 || self.detail_tab == 4;
        let last = lower(assets_count, 1);
        match key {
            Key::Char(ch) => {
                if ch == 'q' {
                    self.should_quit = true;
                } else if ch == '1' {
                    self.detail_tab = 0;
                    self.steps_scroll = 0;
                    self.flowchart_state.scroll = 0;
                } else if ch == '2' {
                    self.detail_tab = 1;
                    self.steps_scroll = 0;
                } else if ch == '3' {
                    self.detail_tab = 2;
                    self.flowchart_state.scroll = 0;
                } else if ch == '4' {
                    self.detail_tab = 3;
                    self.assets_scroll = 0;
                } else if ch == '5' {
                    self.detail_tab = 4;
                    self.steps_scroll = 0;
                } else if ch == 'd' || ch == 'D' {
                    if self.detail_tab == 3 {
                        self.pending_download = Some(self.selected_asset);
                    }
                } else if ch == '[' {
                    if self.sidebar_percent > 15 {
                        self.sidebar_percent = self.sidebar_percent - 5;
                    }
                } else if ch == ']' {
                    if self.sidebar_percent < 60 {
                        self.sidebar_percent = self.sidebar_percent + 5;
                    }
                } else if ch == '-' {
                    if self.console_height > 5 {
                        self.console_height = self.console_height - 2;
                    }
                } else if ch == '+' || ch == '=' {
                    if self.console_height < 25 {
                        self.console_height = self.console_height + 2;
                    }
                }
                Request::Nothing
            },
            Key::Up => {
                if text_tab {
                    self.steps_scroll = lower(self.steps_scroll, 1);
                } else if self.detail_tab == 2 {
                    self.flowchart_state.scroll = lower(self.flowchart_state.scroll, 1);
                } else if self.detail_tab == 3 {
                    self.selected_asset = lower(self.selected_asset, 1);
                } else if self.detail_tab == 0 {
                    self.previous_workflow();
                    return Request::SelectionChanged;
                }
                Request::Nothing
            },
            Key::Down => {
                if text_tab {
                    self.steps_scroll = raise(self.steps_scroll, 1);
                } else if self.detail_tab == 2 {
                    self.flowchart_state.scroll = raise(self.flowchart_state.scroll, 1);
                } else if self.detail_tab == 3 {
                    if self.selected_asset < last {
                        self.selected_asset = self.selected_asset + 1;
                    }
                } else if self.detail_tab == 0 {
                    self.next_workflow();
                    return Request::SelectionChanged;
                }
                Request::Nothing
            },
            Key::Left => {
                self.detail_tab = lower(self.detail_tab, 1);
                Request::Nothing
            },
            Key::Right => {
                if self.detail_tab < 4 {
                    self.detail_tab = self.detail_tab + 1;
                }
                Request::Nothing
            },
            Key::Tab => {
                self.detail_tab = if self.detail_tab >= 4 {
                    0
                } else {
                    self.detail_tab + 1
                };
                self.steps_scroll = 0;
                self.flowchart_state.scroll = 0;
                Request::Nothing
            },
            Key::Enter => Request::RunSelected,
            Key::PageUp => {
                if text_tab {
                    self.steps_scroll = lower(self.steps_scroll, 5);
                } else if self.detail_tab == 2 {
                    self.flowchart_state.scroll = lower(self.flowchart_state.scroll, 5);
                } else if self.detail_tab == 3 {
                    self.selected_asset = lower(self.selected_asset, 5);
                }
                Request::Nothing
            },
            Key::PageDown => {
                if text_tab {
                    self.steps_scroll = raise(self.steps_scroll, 5);
                } else if self.detail_tab == 2 {
                    self.flowchart_state.scroll = raise(self.flowchart_state.scroll, 5);
                } else if self.detail_tab == 3 {
                    let target = raise(self.selected_asset, 5);
                    self.selected_asset = if target < last {
                        target
                    } else {
                        last
                    };
                }
                Request::Nothing
            },
            Key::Home => {
                self.steps_scroll = 0;
                self.assets_scroll = 0;
                self.selected_asset = 0;
                self.flowchart_state.scroll = 0;
                Request::Nothing
            },
            Key::Other => Request::Nothing,
        }
    }
}


/// What a click with the left button hits.
pub enum ClickTarget {
    /// A message is shown: the click closes it.
    Popup,
    /// The line of the sidebar at the place.
    SidebarLine(int),
    /// The row of the tabs, at the column counted from its left edge.
    Tabs(int),
    /// The help bar, at the column counted from its left edge.
    HelpBar(int),
    Nowhere,
}

/// What a click at the column and the row given hits.
pub open spec fn click_target(d: Dashboard, x: u16, y: u16) -> ClickTarget {
    if d.popup is Some {
        ClickTarget::Popup
    } else if d.sidebar_area.spans(x) && d.sidebar_area.y + 1 <= y < d.sidebar_area.y
        + d.sidebar_area.height - 1 {
        if y - d.sidebar_area.y - 1 < d.sidebar_items@.len() {
            ClickTarget::SidebarLine(y - d.sidebar_area.y - 1)
        } else {
            ClickTarget::Nowhere
        }
    } else if d.detail_area.spans(x) && d.detail_area.y <= y <= d.detail_area.y + 2 {
        ClickTarget::Tabs(x - d.detail_area.x)
    } else if y == d.help_bar_area.y {
        ClickTarget::HelpBar(x - d.help_bar_area.x)
    } else {
        ClickTarget::Nowhere
    }
}

/// The tab that a click on the row of the tabs selects, if any.
pub open spec fn tab_at(column: int) -> Option<usize> {
    if column < 12 {
        Some(0usize)
    } else if column < 20 {
        Some(1usize)
    } else if column < 32 {
        Some(2usize)
    } else if column < 40 {
        Some(3usize)
    } else {
        None
    }
}

/// The texts without the one given.
pub open spec fn without(all: Seq<Seq<char>>, one: Seq<char>, n: int) -> Seq<Seq<char>>
    decreases n,
{
    if n <= 0 {
        Seq::empty()
    } else if all[n - 1] == one {
        without(all, one, n - 1)
    } else {
        without(all, one, n - 1).push(all[n - 1])
    }
}

/// The collapsed categories after the one given was toggled.
pub open spec fn toggled(collapsed: Seq<Seq<char>>, name: Seq<char>) -> Seq<Seq<char>> {
    if collapsed.contains(name) {
        without(collapsed, name, collapsed.len() as int)
    } else {
        collapsed.push(name)
    }
}

/// The click is the second of a double click: it falls where the last
/// one fell, less than 400 milliseconds later.
pub open spec fn is_double_click(last: Option<Click>, x: u16, y: u16, now: u64) -> bool {
    match last {
        Some(click) => click.x == x && click.y == y && now - click.at < 400,
        None => false,
    }
}

fn drop_text(all: &Vec<String>, one: &str) -> (r: Vec<String>)
    ensures
        texts(r@) == without(texts(all@), one@, all@.len() as int),
{
    let mut r: Vec<String> = Vec::new();
    let mut i: usize = 0;
    assert(texts(r@) =~= without(texts(all@), one@, 0));
    while i < all.len()
        invariant
            i <= all@.len(),
            texts(r@) == without(texts(all@), one@, i as int),
        decreases all@.len() - i,
    {
        assert(texts(all@)[i as int] == all@[i as int]@);
        let ghost prior = texts(r@);
        if !same_text(all[i].as_str(), one) {
            let kept = all[i].clone();
            r.push(kept);
            assert(texts(r@) =~= prior.push(all@[i as int]@));
        }
        i = i + 1;
    }
    r
}

impl Dashboard {
    /// What a click on a line of the sidebar with a workflow does: the
    /// line is selected and the texts scroll back; on the `[Run]` button
    /// at the right edge, and on the second click of a double click, the
    /// workflow is to be run.
    pub open spec fn after_workflow_click(
        self,
        after: Dashboard,
        line: int,
        x: u16,
        y: u16,
        now: u64,
    ) -> bool {
        let on_button = x >= self.sidebar_area.x + self.sidebar_area.width - 8;
        let double = is_double_click(self.last_click, x, y, now);
        &&& after.selected == Some(line as usize)
        &&& after.pending_run == (self.pending_run || on_button || double)
        &&& after.last_click == (if on_button {
            self.last_click
        } else if double {
            None
        } else {
            Some(Click { x, y, at: now })
        })
        &&& after.steps_scroll == 0
        &&& after.flowchart_state.scroll == 0
        &&& after.sidebar_items == self.sidebar_items
        &&& after.collapsed_categories == self.collapsed_categories
        &&& after.detail_tab == self.detail_tab
        &&& after.should_quit == self.should_quit
    }

    /// What a click on the heading of a category does: the category is
    /// collapsed or opened again, and the lines are built anew.
    pub open spec fn after_category_click(self, after: Dashboard, line: int) -> bool {
        let name = self.sidebar_items@[line]->Category_name@;
        &&& texts(after.collapsed_categories@) == toggled(texts(self.collapsed_categories@), name)
        &&& item_views(after.sidebar_items@) == sidebar_lines(
            self.workflows@,
            toggled(texts(self.collapsed_categories@), name),
            8,
        )
        &&& after.selected == self.selected
        &&& after.pending_run == self.pending_run
        &&& after.last_click == self.last_click
        &&& after.steps_scroll == self.steps_scroll
        &&& after.flowchart_state.scroll == self.flowchart_state.scroll
        &&& after.detail_tab == self.detail_tab
        &&& after.should_quit == self.should_quit
    }

    /// What no click and no turn of the wheel changes is as it was.
    pub open spec fn same_beyond_mouse(self, other: Dashboard) -> bool {
        &&& self.workflows == other.workflows
        &&& self.flowchart_state.executing_step == other.flowchart_state.executing_step
        &&& self.flowchart_state.completed_steps == other.flowchart_state.completed_steps
        &&& self.sidebar_area == other.sidebar_area
        &&& self.detail_area == other.detail_area
        &&& self.help_bar_area == other.help_bar_area
        &&& self.sidebar_percent == other.sidebar_percent
        &&& self.console_height == other.console_height
        &&& self.assets_scroll == other.assets_scroll
        &&& self.selected_asset == other.selected_asset
        &&& self.pending_download == other.pending_download
        &&& self.workflow_definitions == other.workflow_definitions
        &&& self.executing_workflow_id == other.executing_workflow_id
        &&& self.executing_step == other.executing_step
        &&& self.completed_steps == other.completed_steps
    }

    /// Everything that a click can change is as it was, but for what is
    /// named in the clause that uses this.
    pub open spec fn same_view(self, other: Dashboard) -> bool {
        &&& self.sidebar_items == other.sidebar_items
        &&& self.collapsed_categories == other.collapsed_categories
        &&& self.selected == other.selected
        &&& self.pending_run == other.pending_run
        &&& self.last_click == other.last_click
        &&& self.steps_scroll == other.steps_scroll
        &&& self.flowchart_state.scroll == other.flowchart_state.scroll
        &&& self.detail_tab == other.detail_tab
        &&& self.should_quit == other.should_quit
    }

    /// Reacts to the mouse at the column and the row given; `now` is the
    /// time in milliseconds. A click closes a message that is shown. Else
    /// it acts on what it hits: a heading of the sidebar, a workflow of
    /// the sidebar, the row of the tabs, or the help bar, whose right part
    /// quits. The wheel scrolls the details, or moves the selection over
    /// the sidebar.
    pub fn handle_mouse_event(&mut self, kind: MouseKind, x: u16, y: u16, now: u64) -> (request:
        Request)
        ensures
            final(self).same_beyond_mouse(*old(self)),
            kind == MouseKind::Other ==> *final(self) == *old(self) && request == Request::Nothing,
            kind == MouseKind::LeftDown ==> match click_target(*old(self), x, y) {
                ClickTarget::Popup => {
                    &&& final(self).popup is None
                    &&& final(self).same_view(*old(self))
                    &&& final(self).logs == old(self).logs
                    &&& request == Request::Nothing
                },
                ClickTarget::SidebarLine(line) => {
                    &&& final(self).popup == old(self).popup
                    &&& final(self).logs == old(self).logs
                    &&& if old(self).sidebar_items@[line] is Workflow {
                        old(self).after_workflow_click(*final(self), line, x, y, now) && request
                            == Request::SelectionChanged
                    } else {
                        old(self).after_category_click(*final(self), line) && request
                            == Request::Nothing
                    }
                },
                ClickTarget::Tabs(column) => {
                    &&& final(self).popup == old(self).popup
                    &&& final(self).logs == old(self).logs
                    &&& final(self).detail_tab == (match tab_at(column) {
                        Some(t) => t,
                        None => old(self).detail_tab,
                    })
                    &&& final(self).steps_scroll == 0
                    &&& final(self).flowchart_state.scroll == 0
                    &&& final(self).sidebar_items == old(self).sidebar_items
                    &&& final(self).collapsed_categories == old(self).collapsed_categories
                    &&& final(self).selected == old(self).selected
                    &&& final(self).pending_run == old(self).pending_run
                    &&& final(self).last_click == old(self).last_click
                    &&& final(self).should_quit == old(self).should_quit
                    &&& request == Request::Nothing
                },
                ClickTarget::HelpBar(column) => {
                    &&& final(self).popup == old(self).popup
                    &&& final(self).should_quit == (old(self).should_quit || column >= 60)
                    &&& texts(final(self).logs@) == (if 48 <= column < 58 {
                        texts(old(self).logs@).push("Click: Run workflow..."@)
                    } else {
                        texts(old(self).logs@)
                    })
                    &&& final(self).sidebar_items == old(self).sidebar_items
                    &&& final(self).collapsed_categories == old(self).collapsed_categories
                    &&& final(self).selected == old(self).selected
                    &&& final(self).pending_run == old(self).pending_run
                    &&& final(self).last_click == old(self).last_click
                    &&& final(self).steps_scroll == old(self).steps_scroll
                    &&& final(self).flowchart_state.scroll == old(self).flowchart_state.scroll
                    &&& final(self).detail_tab == old(self).detail_tab
                    &&& request == Request::Nothing
                },
                ClickTarget::Nowhere => *final(self) == *old(self) && request == Request::Nothing,
            },
            kind == MouseKind::ScrollUp || kind == MouseKind::ScrollDown ==> {
                let down = kind == MouseKind::ScrollDown;
                let over_details = old(self).detail_area.spans(x);
                let over_sidebar = !over_details && old(self).sidebar_area.spans(x);
                let tab = old(self).detail_tab;
                &&& request == Request::Nothing
                &&& final(self).popup == old(self).popup
                &&& final(self).logs == old(self).logs
                &&& final(self).sidebar_items == old(self).sidebar_items
                &&& final(self).collapsed_categories == old(self).collapsed_categories
                &&& final(self).pending_run == old(self).pending_run
                &&& final(self).last_click == old(self).last_click
                &&& final(self).detail_tab == tab
                &&& final(self).should_quit == old(self).should_quit
                &&& final(self).steps_scroll == (if over_details && (tab == 1 || tab == 3) {
                    if down {
                        raised(old(self).steps_scroll, 2)
                    } else {
                        lowered(old(self).steps_scroll, 2)
                    }
                } else {
                    old(self).steps_scroll
                })
                &&& final(self).flowchart_state.scroll == (if over_details && tab == 2 {
                    if down {
                        raised(old(self).flowchart_state.scroll, 2)
                    } else {
                        lowered(old(self).flowchart_state.scroll, 2)
                    }
                } else {
                    old(self).flowchart_state.scroll
                })
                &&& final(self).selected == (if over_sidebar {
                    selection_after(old(self).sidebar_items@, old(self).selected, down)
                } else {
                    old(self).selected
                })
            },
    {
        match kind {
            MouseKind::Other => Request::Nothing,
            MouseKind::ScrollUp => {
                if self.detail_area.holds_column(x) {
                    if self.detail_tab == 1 || self.detail_tab == 3 {
                        self.steps_scroll = lower(self.steps_scroll, 2);
                    } else if self.detail_tab == 2 {
                        self.flowchart_state.scroll = lower(self.flowchart_state.scroll, 2);
                    }
                } else if self.sidebar_area.holds_column(x) {
                    self.previous_workflow();
                }
                Request::Nothing
            },
            MouseKind::ScrollDown => {
                if self.detail_area.holds_column(x) {
                    if self.detail_tab == 1 || self.detail_tab == 3 {
                        self.steps_scroll = raise(self.steps_scroll, 2);
                    } else if self.detail_tab == 2 {
                        self.flowchart_state.scroll = raise(self.flowchart_state.scroll, 2);
                    }
                } else if self.sidebar_area.holds_column(x) {
                    self.next_workflow();
                }
                Request::Nothing
            },
            MouseKind::LeftDown => {
                if self.popup.is_some() {
                    self.popup = None;
                    return Request::Nothing;
                }
                let sidebar = self.sidebar_area;
                let detail = self.detail_area;
                let row: u32 = y as u32;
                let first_line: u32 = sidebar.y as u32 + 1;
                let end_line: u32 = sidebar.y as u32 + sidebar.height as u32;
                if sidebar.holds_column(x) && row >= first_line && row + 1 < end_line {
                    let clicked: usize = (row - first_line) as usize;
                    if clicked >= self.sidebar_items.len() {
                        return Request::Nothing;
                    }
                    let heading: Option<String> = match &self.sidebar_items[clicked] {
                        SidebarItem::Category { name, count } => Some(name.clone()),
                        SidebarItem::Workflow { index } => None,
                    };
                    match heading {
                        Some(name) => {
                            let collapsed = if holds_text(
                                &self.collapsed_categories,
                                name.as_str(),
                            ) {
                                drop_text(&self.collapsed_categories, name.as_str())
                            } else {
                                let mut all = crate::text::copy_texts(&self.collapsed_categories);
                                let ghost prior = texts(all@);
                                all.push(name);
                                assert(texts(all@) =~= prior.push(name@));
                                all
                            };
                            self.collapsed_categories = collapsed;
                            self.rebuild_sidebar_items();
                            Request::Nothing
                        },
                        None => {
                            let button: u32 = sidebar.x as u32 + sidebar.width as u32;
                            let on_button = x as u32 + 8 >= button;
                            self.selected = Some(clicked);
                            if on_button {
                                self.pending_run = true;
                            } else {
                                let double = match self.last_click {
                                    Some(click) => click.x == x && click.y == y && (now as i128)
                                        - (click.at as i128) < 400,
                                    None => false,
                                };
                                if double {
                                    self.pending_run = true;
                                    self.last_click = None;
                                } else {
                                    self.last_click = Some(Click { x, y, at: now });
                                }
                            }
                            self.steps_scroll = 0;
                            self.flowchart_state.scroll = 0;
                            Request::SelectionChanged
                        },
                    }
                } else if detail.holds_column(x) && y >= detail.y && row <= detail.y as u32 + 2 {
                    let column = x - detail.x;
                    if column < 12 {
                        self.detail_tab = 0;
                    } else if column < 20 {
                        self.detail_tab = 1;
                    } else if column < 32 {
                        self.detail_tab = 2;
                    } else if column < 40 {
                        self.detail_tab = 3;
                    }
                    self.steps_scroll = 0;
                    self.flowchart_state.scroll = 0;
                    Request::Nothing
                } else if y == self.help_bar_area.y {
                    let column: i32 = x as i32 - self.help_bar_area.x as i32;
                    if 48 <= column && column < 58 {
                        let ghost prior = texts(self.logs@);
                        self.logs.push(owned("Click: Run workflow..."));
                        assert(texts(self.logs@) =~= prior.push("Click: Run workflow..."@));
                    } else if column >= 60 {
                        self.should_quit = true;
                    }
                    Request::Nothing
                } else {
                    Request::Nothing
                }
            },
        }
    }
}

} // verus!
