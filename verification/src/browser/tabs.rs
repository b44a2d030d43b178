//! Tabs: the pages of the active context.

use vstd::prelude::*;

use crate::browser::session;
use crate::browser::{BrowserManager, ManagerView};
use crate::error::{BrowserError, ErrorView};
use crate::json;
use crate::json::{no_fields, no_items, push_field, push_item, Json, JsonView};
use crate::step::{Action, ActionView, Event, Operation, PageId, Step, StepView};
use crate::text;

verus! {

/// Opens a tab.
#[derive(Debug)]
pub struct OpeningTab {}

impl DeepView for OpeningTab {
    type V = OpeningTab;

    open spec fn deep_view(&self) -> OpeningTab {
        *self
    }
}

impl ManagerView {
    /// The first step of opening a tab. Where a named context is active the tab belongs to it: it
    /// is opened beside the first of its pages, or apart from all others where it has none.
    pub open spec fn new_page(self) -> StepView<OpeningTab, ()> {
        let url: Seq<char> = session::BLANK@;
        if !self.launched {
            StepView::Done(Err(ErrorView::NotLaunched))
        } else if self.active_context is None {
            StepView::Ask(ActionView::NewPage { url }, OpeningTab {  })
        } else if self.pages.len() > 0 {
            StepView::Ask(
                ActionView::NewPageBeside { page: self.pages[0], url },
                OpeningTab {  },
            )
        } else {
            StepView::Ask(ActionView::NewContextPage { url }, OpeningTab {  })
        }
    }

    /// The state after a tab was opened: it comes last and is active.
    pub open spec fn with_tab(self, page: PageId) -> ManagerView {
        ManagerView {
            pages: self.pages.push(page),
            active_page_index: self.pages.len() as int,
            ..self
        }
    }

    /// The end of opening a tab, and the state then.
    pub open spec fn new_page_next(self, event: Event) -> (ManagerView, StepView<OpeningTab, ()>) {
        match event.page() {
            Ok(page) => (self.with_tab(page), StepView::Done(Ok(()))),
            Err(e) => (self, StepView::Done(Err(e))),
        }
    }

    /// The state after a switch to the tab at an index, and its result.
    pub open spec fn switch_tab_by_index(self, index: int) -> (
        ManagerView,
        Result<(), ErrorView>,
    ) {
        if index < self.pages.len() {
            (self.with_active(index), Ok(()))
        } else {
            (self, Err(ErrorView::Cdp(out_of_range(index, self.pages.len() as int))))
        }
    }
}

impl Operation for OpeningTab {
    type Output = ();

    fn resume(self, manager: &mut BrowserManager, event: Event) -> (step: Step<Self, ()>)
        ensures
            (final(manager)@, step.deep_view()) == old(manager)@.new_page_next(event),
    {
        match event.into_page() {
            Ok(page) => {
                manager.pages.push(page);
                manager.active_page_index = manager.pages.len() - 1;
                Step::Done(Ok(()))
            },
            Err(e) => Step::Done(Err(e)),
        }
    }
}

/// Lists the tabs.
#[derive(Debug)]
pub enum ListingTabs<S, L> {
    /// The address of a tab is read.
    Addressing { index: usize, tabs: L },
    /// The title of a tab is read.
    Titling { index: usize, url: S, tabs: L },
}

impl DeepView for ListingTabs<String, Vec<Json>> {
    type V = ListingTabs<Seq<char>, Seq<JsonView>>;

    open spec fn deep_view(&self) -> ListingTabs<Seq<char>, Seq<JsonView>> {
        match self {
            ListingTabs::Addressing { index, tabs } => ListingTabs::Addressing {
                index: *index,
                tabs: tabs.deep_view(),
            },
            ListingTabs::Titling { index, url, tabs } => ListingTabs::Titling {
                index: *index,
                url: url@,
                tabs: tabs.deep_view(),
            },
        }
    }
}

/// A tab as it is listed.
pub open spec fn tab_json(index: int, url: Seq<char>, title: Seq<char>, active: bool) -> JsonView {
    JsonView::Object(
        seq![
            ("index"@, JsonView::Number(text::decimal(index as nat))),
            ("url"@, JsonView::Text(url)),
            ("title"@, JsonView::Text(title)),
            ("active"@, JsonView::Bool(active)),
        ],
    )
}

fn describe_tab(index: usize, url: &str, title: &str, active: bool) -> (r: Json)
    ensures
        r.deep_view() == tab_json(index as int, url@, title@, active),
{
    let mut fields: Vec<(String, Json)> = no_fields();
    push_field(&mut fields, "index", Json::number(index as u128));
    push_field(&mut fields, "url", Json::text(url));
    push_field(&mut fields, "title", Json::text(title));
    push_field(&mut fields, "active", Json::Bool(active));
    assert(json::members(fields@) =~= tab_json(index as int, url@, title@, active)->Object_0);
    Json::object(fields)
}

impl ManagerView {
    /// The listing of the tabs from an index on, where `tabs` are the ones before it.
    pub open spec fn list_from(self, index: int, tabs: Seq<JsonView>) -> StepView<
        ListingTabs<Seq<char>, Seq<JsonView>>,
        Seq<JsonView>,
    > {
        if index < self.pages.len() {
            StepView::Ask(
                ActionView::PageUrl { page: self.pages[index] },
                ListingTabs::Addressing { index: index as usize, tabs },
            )
        } else {
            StepView::Done(Ok(tabs))
        }
    }

    /// The first step of listing the tabs.
    pub open spec fn list_tabs(self) -> StepView<
        ListingTabs<Seq<char>, Seq<JsonView>>,
        Seq<JsonView>,
    > {
        self.list_from(0, seq![])
    }

    /// What comes after an event while the tabs are listed.
    pub open spec fn list_next(
        self,
        stage: ListingTabs<Seq<char>, Seq<JsonView>>,
        event: Event,
    ) -> StepView<ListingTabs<Seq<char>, Seq<JsonView>>, Seq<JsonView>> {
        match stage {
            ListingTabs::Addressing { index, tabs } => if index < self.pages.len() {
                StepView::Ask(
                    ActionView::PageTitle { page: self.pages[index as int] },
                    ListingTabs::Titling { index, url: event.text(), tabs },
                )
            } else {
                StepView::Done(Ok(tabs))
            },
            ListingTabs::Titling { index, url, tabs } => self.list_from(
                index + 1,
                tabs.push(
                    tab_json(index as int, url, event.text(), index == self.active_page_index),
                ),
            ),
        }
    }
}

impl Operation for ListingTabs<String, Vec<Json>> {
    type Output = Vec<Json>;

    fn resume(self, manager: &mut BrowserManager, event: Event) -> (step: Step<Self, Vec<Json>>)
        ensures
            final(manager)@ == old(manager)@,
            step.deep_view() == old(manager)@.list_next(self.deep_view(), event),
    {
        match self {
            ListingTabs::Addressing { index, tabs } => if index < manager.pages.len() {
                Step::Ask(
                    Action::PageTitle { page: manager.pages[index] },
                    ListingTabs::Titling { index, url: event.into_text(), tabs },
                )
            } else {
                Step::Done(Ok(tabs))
            },
            ListingTabs::Titling { index, url, tabs } => {
                let mut tabs: Vec<Json> = tabs;
                let title: String = event.into_text();
                let active: bool = index == manager.active_page_index;
                push_item(&mut tabs, describe_tab(index, url.as_str(), title.as_str(), active));
                if index < manager.pages.len() {
                    manager.list_from(index + 1, tabs)
                } else {
                    Step::Done(Ok(tabs))
                }
            },
        }
    }
}

/// Looks for a tab by its address.
#[derive(Debug)]
pub struct SwitchingTab<S> {
    /// What the address is to contain.
    pub wanted: S,
    /// The same in lower case.
    pub lower: S,
    /// The tab whose address is read.
    pub index: usize,
}

impl DeepView for SwitchingTab<String> {
    type V = SwitchingTab<Seq<char>>;

    open spec fn deep_view(&self) -> SwitchingTab<Seq<char>> {
        SwitchingTab { wanted: self.wanted@, lower: self.lower@, index: self.index }
    }
}

impl ManagerView {
    /// The state in which another tab is active.
    pub open spec fn with_active(self, index: int) -> ManagerView {
        ManagerView { active_page_index: index, ..self }
    }

    /// The look at a tab, or the end where there is none left.
    pub open spec fn seek_tab(self, wanted: Seq<char>, lower: Seq<char>, index: int) -> StepView<
        SwitchingTab<Seq<char>>,
        usize,
    > {
        if index < self.pages.len() {
            StepView::Ask(
                ActionView::PageUrl { page: self.pages[index] },
                SwitchingTab { wanted, lower, index: index as usize },
            )
        } else {
            StepView::Done(
                Err(ErrorView::Cdp("No tab with URL containing '"@ + wanted + "'"@)),
            )
        }
    }

    /// The first step of looking for a tab by its address.
    pub open spec fn switch_tab_by_url(self, wanted: Seq<char>) -> StepView<
        SwitchingTab<Seq<char>>,
        usize,
    > {
        self.seek_tab(wanted, text::lowercase(wanted), 0)
    }

    /// What comes after a tab was looked at, where `url` is its address in lower case, and the
    /// state then.
    pub open spec fn seek_next(self, stage: SwitchingTab<Seq<char>>, url: Seq<char>) -> (
        ManagerView,
        StepView<SwitchingTab<Seq<char>>, usize>,
    ) {
        if text::occurs(url, stage.lower) {
            (self.with_active(stage.index as int), StepView::Done(Ok(stage.index)))
        } else {
            (self, self.seek_tab(stage.wanted, stage.lower, stage.index + 1))
        }
    }
}

impl Operation for SwitchingTab<String> {
    type Output = usize;

    fn resume(self, manager: &mut BrowserManager, event: Event) -> (step: Step<Self, usize>)
        ensures
            (final(manager)@, step.deep_view()) == old(manager)@.seek_next(
                self.deep_view(),
                text::lowercase(event.text()),
            ),
    {
        let url: String = event.into_text();
        let lower_url: String = text::to_lowercase(url.as_str());
        manager.seek_next(self, lower_url.as_str())
    }
}

/// Closes a tab.
#[derive(Debug)]
pub struct ClosingTab {
    /// Where the tab was.
    pub index: usize,
}

impl DeepView for ClosingTab {
    type V = ClosingTab;

    open spec fn deep_view(&self) -> ClosingTab {
        *self
    }
}

/// The message for an index without a tab.
pub open spec fn out_of_range(index: int, count: int) -> Seq<char> {
    "Tab index "@ + text::decimal(index as nat) + " out of range (0.."@ + text::decimal(
        count as nat,
    ) + ")"@
}

fn out_of_range_text(index: usize, count: usize) -> (r: String)
    ensures
        r@ == out_of_range(index as int, count as int),
{
    let mut r: String = "Tab index ".to_owned();
    text::push_decimal(&mut r, index as u128);
    r.append(" out of range (0..");
    text::push_decimal(&mut r, count as u128);
    r.append(")");
    r
}

/// The place of the active page after the page at `index` went, where `count` are left.
pub open spec fn settled_index(active: int, index: int, count: int) -> int {
    if active >= count {
        count - 1
    } else if active > index {
        active - 1
    } else {
        active
    }
}

impl ManagerView {
    /// The state in which a tab is gone and the place of the active one is not yet settled.
    pub open spec fn without_tab(self, index: int) -> ManagerView {
        ManagerView { pages: self.pages.remove(index), ..self }
    }

    /// The state in which the place of the active page is settled. Without any page there is
    /// nothing to settle.
    pub open spec fn settled(self, index: int) -> ManagerView {
        if self.pages.len() == 0 {
            self
        } else {
            self.with_active(
                settled_index(self.active_page_index, index, self.pages.len() as int),
            )
        }
    }

    /// The first step of closing a tab, and the state after it.
    pub open spec fn close_tab(self, index: int) -> (ManagerView, StepView<ClosingTab, ()>) {
        if index >= self.pages.len() {
            (
                self,
                StepView::Done(Err(ErrorView::Cdp(out_of_range(index, self.pages.len() as int)))),
            )
        } else if self.pages.len() == 1 {
            (self, StepView::Done(Err(ErrorView::Cdp("Cannot close the last tab"@))))
        } else {
            (
                self.without_tab(index),
                StepView::Ask(
                    ActionView::ClosePage { page: self.pages[index] },
                    ClosingTab { index: index as usize },
                ),
            )
        }
    }

    /// The end of closing a tab, and the state then. Where the page could not be closed it is
    /// gone from the tabs all the same, and the place of the active one stays as it was.
    pub open spec fn close_tab_next(self, stage: ClosingTab, event: Event) -> (
        ManagerView,
        StepView<ClosingTab, ()>,
    ) {
        match event.outcome() {
            Ok(_) => (self.settled(stage.index as int), StepView::Done(Ok(()))),
            Err(e) => (self, StepView::Done(Err(e))),
        }
    }
}

impl Operation for ClosingTab {
    type Output = ();

    fn resume(self, manager: &mut BrowserManager, event: Event) -> (step: Step<Self, ()>)
        ensures
            (final(manager)@, step.deep_view()) == old(manager)@.close_tab_next(self, event),
    {
        match event.into_outcome() {
            Ok(_) => {
                if manager.pages.len() > 0 {
                    if manager.active_page_index >= manager.pages.len() {
                        manager.active_page_index = manager.pages.len() - 1;
                    } else if manager.active_page_index > self.index {
                        manager.active_page_index = manager.active_page_index - 1;
                    }
                }
                Step::Done(Ok(()))
            },
            Err(e) => Step::Done(Err(e)),
        }
    }
}

impl BrowserManager {
    /// Opens a blank tab in the active context and makes it the active one.
    pub fn new_page(&mut self) -> (step: Step<OpeningTab, ()>)
        ensures
            final(self)@ == old(self)@,
            step.deep_view() == old(self)@.new_page(),
    {
        if !self.launched {
            return Step::Done(Err(BrowserError::NotLaunched));
        }
        let url: String = session::BLANK.to_owned();
        if self.active_context.is_none() {
            Step::Ask(Action::NewPage { url }, OpeningTab {  })
        } else if self.pages.len() > 0 {
            Step::Ask(Action::NewPageBeside { page: self.pages[0], url }, OpeningTab {  })
        } else {
            Step::Ask(Action::NewContextPage { url }, OpeningTab {  })
        }
    }

    fn list_from(&self, index: usize, tabs: Vec<Json>) -> (step: Step<
        ListingTabs<String, Vec<Json>>,
        Vec<Json>,
    >)
        ensures
            step.deep_view() == self@.list_from(index as int, tabs.deep_view()),
    {
        if index < self.pages.len() {
            Step::Ask(
                Action::PageUrl { page: self.pages[index] },
                ListingTabs::Addressing { index, tabs },
            )
        } else {
            Step::Done(Ok(tabs))
        }
    }

    /// Lists the tabs with their addresses and titles.
    pub fn list_tabs(&self) -> (step: Step<ListingTabs<String, Vec<Json>>, Vec<Json>>)
        ensures
            step.deep_view() == self@.list_tabs(),
    {
        self.list_from(0, no_items())
    }

    /// Makes another tab the active one.
    pub fn switch_tab_by_index(&mut self, index: usize) -> (r: Result<(), BrowserError>)
        ensures
            (final(self)@, crate::error::result_view(r)) == old(self)@.switch_tab_by_index(
                index as int,
            ),
    {
        if index >= self.pages.len() {
            return Err(BrowserError::Cdp(out_of_range_text(index, self.pages.len())));
        }
        self.active_page_index = index;
        Ok(())
    }

    fn seek_tab(&self, wanted: String, lower: String, index: usize) -> (step: Step<
        SwitchingTab<String>,
        usize,
    >)
        ensures
            step.deep_view() == self@.seek_tab(wanted@, lower@, index as int),
    {
        if index < self.pages.len() {
            Step::Ask(
                Action::PageUrl { page: self.pages[index] },
                SwitchingTab { wanted, lower, index },
            )
        } else {
            Step::Done(
                Err(
                    BrowserError::Cdp(
                        "No tab with URL containing '".to_owned().concat(wanted.as_str()).concat(
                            "'",
                        ),
                    ),
                ),
            )
        }
    }

    /// Goes on after a tab was looked at, where `url` is its address in lower case.
    pub fn seek_next(&mut self, stage: SwitchingTab<String>, url: &str) -> (step: Step<
        SwitchingTab<String>,
        usize,
    >)
        ensures
            (final(self)@, step.deep_view()) == old(self)@.seek_next(stage.deep_view(), url@),
    {
        if text::contains(url, stage.lower.as_str()) {
            self.active_page_index = stage.index;
            Step::Done(Ok(stage.index))
        } else if stage.index < self.pages.len() {
            self.seek_tab(stage.wanted, stage.lower, stage.index + 1)
        } else {
            self.seek_tab(stage.wanted, stage.lower, stage.index)
        }
    }

    /// Makes the first tab whose address contains a text the active one, whatever the case of
    /// the letters.
    pub fn switch_tab_by_url(&mut self, url_match: &str) -> (step: Step<
        SwitchingTab<String>,
        usize,
    >)
        ensures
            final(self)@ == old(self)@,
            step.deep_view() == old(self)@.switch_tab_by_url(url_match@),
    {
        let lower: String = text::to_lowercase(url_match);
        self.seek_tab(url_match.to_owned(), lower, 0)
    }

    /// Closes a tab, but not the last one.
    pub fn close_tab(&mut self, index: usize) -> (step: Step<ClosingTab, ()>)
        ensures
            (final(self)@, step.deep_view()) == old(self)@.close_tab(index as int),
    {
        if index >= self.pages.len() {
            return Step::Done(
                Err(BrowserError::Cdp(out_of_range_text(index, self.pages.len()))),
            );
        }
        if self.pages.len() == 1 {
            return Step::Done(Err(BrowserError::Cdp("Cannot close the last tab".to_owned())));
        }
        let page: PageId = self.pages.remove(index);
        Step::Ask(Action::ClosePage { page }, ClosingTab { index })
    }
}

} // verus!
