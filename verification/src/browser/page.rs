//! Pages: where they go, what they show, and their cookies.

use vstd::prelude::*;

use crate::browser::evaluation;
use crate::browser::evaluation::{into_items, Running};
use crate::browser::{BrowserManager, ManagerView};
use crate::error::{BrowserError, ErrorView};
use crate::json;
use crate::json::{no_fields, no_items, push_field, push_item, Json, JsonView};
use crate::scripts;
use crate::step::{
    Action, ActionView, Cookie, CookieView, Event, Operation, PageId, Step, StepView,
};

verus! {

/// The character that stands for six bits in the standard alphabet of base64.
pub open spec fn sextet_char(n: int) -> char {
    if n < 26 {
        ('A' as int + n) as char
    } else if n < 52 {
        ('a' as int + (n - 26)) as char
    } else if n < 62 {
        ('0' as int + (n - 52)) as char
    } else if n == 62 {
        '+'
    } else {
        '/'
    }
}

/// Bytes in base64, with the standard alphabet and padding: four characters for three bytes.
pub open spec fn base64_text(bytes: Seq<u8>) -> Seq<char>
    decreases bytes.len(),
{
    let a: int = bytes[0] as int;
    let b: int = bytes[1] as int;
    let c: int = bytes[2] as int;
    if bytes.len() == 0 {
        seq![]
    } else if bytes.len() == 1 {
        seq![sextet_char(a / 4), sextet_char(a % 4 * 16), '=', '=']
    } else if bytes.len() == 2 {
        seq![
            sextet_char(a / 4),
            sextet_char(a % 4 * 16 + b / 16),
            sextet_char(b % 16 * 4),
            '=',
        ]
    } else {
        seq![
            sextet_char(a / 4),
            sextet_char(a % 4 * 16 + b / 16),
            sextet_char(b % 16 * 4 + c / 64),
            sextet_char(c % 64),
        ] + base64_text(bytes.skip(3))
    }
}

/// Calls `base64::Engine::encode` with the engine `STANDARD`, which writes the bytes in the
/// standard alphabet with padding.
#[verifier::external_body]
fn encode_base64(bytes: &Vec<u8>) -> (r: String)
    ensures
        r@ == base64_text(bytes@),
{
    base64::Engine::encode(&base64::engine::general_purpose::STANDARD, bytes)
}

/// Loads an address.
#[derive(Debug)]
pub enum Navigating {
    /// The address is loaded.
    Going { page: PageId },
    /// The page settles.
    Settling { page: PageId },
    /// The title is read.
    Titling,
}

impl DeepView for Navigating {
    type V = Navigating;

    open spec fn deep_view(&self) -> Navigating {
        *self
    }
}

impl Navigating {
    /// What comes after an event.
    pub open spec fn next(self, event: Event) -> StepView<Navigating, Seq<char>> {
        match self {
            Navigating::Going { page } => match event.outcome() {
                Ok(_) => StepView::Ask(
                    ActionView::Sleep { ms: 500 },
                    Navigating::Settling { page },
                ),
                Err(e) => StepView::Done(Err(e)),
            },
            Navigating::Settling { page } => StepView::Ask(
                ActionView::PageTitle { page },
                Navigating::Titling,
            ),
            Navigating::Titling => StepView::<Navigating, Seq<char>>::Done(Ok(event.text())),
        }
    }
}

impl Operation for Navigating {
    type Output = String;

    fn resume(self, manager: &mut BrowserManager, event: Event) -> (step: Step<Self, String>)
        ensures
            final(manager)@ == old(manager)@,
            step.deep_view() == self.next(event),
    {
        match self {
            Navigating::Going { page } => match event.into_outcome() {
                Ok(_) => Step::Ask(Action::Sleep { ms: 500 }, Navigating::Settling { page }),
                Err(e) => Step::Done(Err(e)),
            },
            Navigating::Settling { page } => Step::Ask(
                Action::PageTitle { page },
                Navigating::Titling,
            ),
            Navigating::Titling => Step::Done(Ok(event.into_text())),
        }
    }
}

/// Waits for a picture.
#[derive(Debug)]
pub struct Picturing {}

impl DeepView for Picturing {
    type V = Picturing;

    open spec fn deep_view(&self) -> Picturing {
        *self
    }
}

/// The picture of an event, in base64.
pub open spec fn picture(event: Event) -> Result<Seq<char>, ErrorView> {
    match event.bytes() {
        Ok(bytes) => Ok(base64_text(bytes)),
        Err(e) => Err(e),
    }
}

/// The picture of an event, in base64.
pub fn encode_picture(event: Event) -> (r: Result<String, BrowserError>)
    ensures
        crate::error::result_view(r) == picture(event),
{
    match event.into_bytes() {
        Ok(bytes) => Ok(encode_base64(&bytes)),
        Err(e) => Err(e),
    }
}

impl Picturing {
    /// What comes after an event.
    pub open spec fn next(self, event: Event) -> StepView<Picturing, Seq<char>> {
        StepView::<Picturing, Seq<char>>::Done(picture(event))
    }
}

impl Operation for Picturing {
    type Output = String;

    fn resume(self, manager: &mut BrowserManager, event: Event) -> (step: Step<Self, String>)
        ensures
            final(manager)@ == old(manager)@,
            step.deep_view() == self.next(event),
    {
        Step::Done(encode_picture(event))
    }
}

/// Takes a picture and writes it to a file.
#[derive(Debug)]
pub enum PicturingToFile<S> {
    /// The picture is taken.
    Taking { path: S },
    /// The file is written.
    Writing { path: S },
}

impl DeepView for PicturingToFile<String> {
    type V = PicturingToFile<Seq<char>>;

    open spec fn deep_view(&self) -> PicturingToFile<Seq<char>> {
        match self {
            PicturingToFile::Taking { path } => PicturingToFile::Taking { path: path@ },
            PicturingToFile::Writing { path } => PicturingToFile::Writing { path: path@ },
        }
    }
}

impl PicturingToFile<Seq<char>> {
    /// What comes after an event.
    pub open spec fn next(self, event: Event) -> StepView<PicturingToFile<Seq<char>>, Seq<char>> {
        match self {
            PicturingToFile::Taking { path } => match event.bytes() {
                Ok(bytes) => StepView::Ask(
                    ActionView::WriteBytes { path, bytes },
                    PicturingToFile::Writing { path },
                ),
                Err(e) => StepView::Done(Err(e)),
            },
            PicturingToFile::Writing { path } => match event.failure() {
                Some(m) => StepView::Done(
                    Err(ErrorView::ProcessError("Failed to write: "@ + m)),
                ),
                None => StepView::<PicturingToFile<Seq<char>>, Seq<char>>::Done(Ok(path)),
            },
        }
    }
}

impl Operation for PicturingToFile<String> {
    type Output = String;

    fn resume(self, manager: &mut BrowserManager, event: Event) -> (step: Step<Self, String>)
        ensures
            final(manager)@ == old(manager)@,
            step.deep_view() == self.deep_view().next(event),
    {
        match self {
            PicturingToFile::Taking { path } => match event.into_bytes() {
                Ok(bytes) => {
                    let target: String = path.clone();
                    Step::Ask(
                        Action::WriteBytes { path: target, bytes },
                        PicturingToFile::Writing { path },
                    )
                },
                Err(e) => Step::Done(Err(e)),
            },
            PicturingToFile::Writing { path } => match event {
                Event::Failed(m) => Step::Done(
                    Err(
                        BrowserError::ProcessError(
                            "Failed to write: ".to_owned().concat(m.as_str()),
                        ),
                    ),
                ),
                _ => Step::Done(Ok(path)),
            },
        }
    }
}

/// Takes a picture of an element.
#[derive(Debug)]
pub enum PicturingElement<S> {
    /// The element is looked for.
    Finding { selector: S },
    /// The picture is taken.
    Taking,
}

impl DeepView for PicturingElement<String> {
    type V = PicturingElement<Seq<char>>;

    open spec fn deep_view(&self) -> PicturingElement<Seq<char>> {
        match self {
            PicturingElement::Finding { selector } => PicturingElement::Finding {
                selector: selector@,
            },
            PicturingElement::Taking => PicturingElement::Taking,
        }
    }
}

impl PicturingElement<Seq<char>> {
    /// What comes after an event.
    pub open spec fn next(self, event: Event) -> StepView<PicturingElement<Seq<char>>, Seq<char>> {
        match self {
            PicturingElement::Finding { selector } => match event.element() {
                Some(element) => StepView::Ask(
                    ActionView::ElementScreenshot { element },
                    PicturingElement::Taking,
                ),
                None => StepView::Done(Err(ErrorView::ElementNotFound(selector))),
            },
            PicturingElement::Taking => StepView::<
                PicturingElement<Seq<char>>,
                Seq<char>,
            >::Done(picture(event)),
        }
    }
}

impl Operation for PicturingElement<String> {
    type Output = String;

    fn resume(self, manager: &mut BrowserManager, event: Event) -> (step: Step<Self, String>)
        ensures
            final(manager)@ == old(manager)@,
            step.deep_view() == self.deep_view().next(event),
    {
        match self {
            PicturingElement::Finding { selector } => match event.into_element() {
                Some(element) => Step::Ask(
                    Action::ElementScreenshot { element },
                    PicturingElement::Taking,
                ),
                None => Step::Done(Err(BrowserError::ElementNotFound(selector))),
            },
            PicturingElement::Taking => Step::Done(encode_picture(event)),
        }
    }
}

/// Takes pictures one after the other, with a pause after each.
#[derive(Debug)]
pub enum Bursting<L> {
    /// A picture is taken; `after` says how many follow.
    Taking { after: usize, interval_ms: u64, quality: u8, shots: L },
    /// The pause runs; `after` says how many pictures follow.
    Sleeping { after: usize, interval_ms: u64, quality: u8, shots: L },
}

impl DeepView for Bursting<Vec<String>> {
    type V = Bursting<Seq<Seq<char>>>;

    open spec fn deep_view(&self) -> Bursting<Seq<Seq<char>>> {
        match self {
            Bursting::Taking { after, interval_ms, quality, shots } => Bursting::Taking {
                after: *after,
                interval_ms: *interval_ms,
                quality: *quality,
                shots: shots.deep_view(),
            },
            Bursting::Sleeping { after, interval_ms, quality, shots } => Bursting::Sleeping {
                after: *after,
                interval_ms: *interval_ms,
                quality: *quality,
                shots: shots.deep_view(),
            },
        }
    }
}

impl ManagerView {
    /// The next step of a burst with `count` pictures still to take.
    pub open spec fn burst_next(
        self,
        count: int,
        interval_ms: u64,
        quality: u8,
        shots: Seq<Seq<char>>,
    ) -> StepView<Bursting<Seq<Seq<char>>>, Seq<Seq<char>>> {
        if count == 0 {
            StepView::Done(Ok(shots))
        } else {
            match self.page() {
                Some(page) => StepView::Ask(
                    ActionView::Screenshot { page, full_page: false, quality },
                    Bursting::Taking { after: (count - 1) as usize, interval_ms, quality, shots },
                ),
                None => StepView::Done(Err(ErrorView::NoPage)),
            }
        }
    }

    /// The first step of a burst.
    pub open spec fn screenshot_burst(self, count: usize, interval_ms: u64, quality: u8) -> StepView<
        Bursting<Seq<Seq<char>>>,
        Seq<Seq<char>>,
    > {
        self.burst_next(count as int, interval_ms, quality, seq![])
    }

    /// What comes after an event in a burst.
    pub open spec fn burst_after(self, stage: Bursting<Seq<Seq<char>>>, event: Event) -> StepView<
        Bursting<Seq<Seq<char>>>,
        Seq<Seq<char>>,
    > {
        match stage {
            Bursting::Taking { after, interval_ms, quality, shots } => match picture(event) {
                Ok(shot) => StepView::Ask(
                    ActionView::Sleep { ms: interval_ms },
                    Bursting::Sleeping { after, interval_ms, quality, shots: shots.push(shot) },
                ),
                Err(e) => StepView::Done(Err(e)),
            },
            Bursting::Sleeping { after, interval_ms, quality, shots } => self.burst_next(
                after as int,
                interval_ms,
                quality,
                shots,
            ),
        }
    }
}

impl Operation for Bursting<Vec<String>> {
    type Output = Vec<String>;

    fn resume(self, manager: &mut BrowserManager, event: Event) -> (step: Step<
        Self,
        Vec<String>,
    >)
        ensures
            final(manager)@ == old(manager)@,
            step.deep_view() == old(manager)@.burst_after(self.deep_view(), event),
    {
        match self {
            Bursting::Taking { after, interval_ms, quality, shots } => match encode_picture(
                event,
            ) {
                Ok(shot) => {
                    let mut shots: Vec<String> = shots;
                    let ghost before: Seq<Seq<char>> = shots.deep_view();
                    shots.push(shot);
                    assert(shots.deep_view() =~= before.push(shot@));
                    Step::Ask(
                        Action::Sleep { ms: interval_ms },
                        Bursting::Sleeping { after, interval_ms, quality, shots },
                    )
                },
                Err(e) => Step::Done(Err(e)),
            },
            Bursting::Sleeping { after, interval_ms, quality, shots } => manager.burst_next(
                after,
                interval_ms,
                quality,
                shots,
            ),
        }
    }
}

/// What an element shows; nothing at all is a failure with that message.
pub open spec fn shown(event: Event, nothing: Seq<char>) -> Result<Seq<char>, ErrorView> {
    match event {
        Event::Text(t) => Ok(t@),
        Event::Failed(m) => Err(ErrorView::Cdp(m@)),
        _ => Err(ErrorView::Cdp(nothing)),
    }
}

fn read_shown(event: Event, nothing: &str) -> (r: Result<String, BrowserError>)
    ensures
        crate::error::result_view(r) == shown(event, nothing@),
{
    match event {
        Event::Text(t) => Ok(t),
        Event::Failed(m) => Err(BrowserError::Cdp(m)),
        _ => Err(BrowserError::Cdp(nothing.to_owned())),
    }
}

/// Reads the HTML of an element or of the page.
#[derive(Debug)]
pub enum ReadingHtml<S> {
    /// The element is looked for.
    Finding { selector: S },
    /// Its HTML is read.
    Element,
    /// The HTML of the page is read.
    Page,
}

impl DeepView for ReadingHtml<String> {
    type V = ReadingHtml<Seq<char>>;

    open spec fn deep_view(&self) -> ReadingHtml<Seq<char>> {
        match self {
            ReadingHtml::Finding { selector } => ReadingHtml::Finding { selector: selector@ },
            ReadingHtml::Element => ReadingHtml::Element,
            ReadingHtml::Page => ReadingHtml::Page,
        }
    }
}

impl ReadingHtml<Seq<char>> {
    /// What comes after an event.
    pub open spec fn next(self, event: Event) -> StepView<ReadingHtml<Seq<char>>, Seq<char>> {
        match self {
            ReadingHtml::Finding { selector } => match event.element() {
                Some(element) => StepView::Ask(
                    ActionView::ElementHtml { element },
                    ReadingHtml::Element,
                ),
                None => StepView::Done(Err(ErrorView::ElementNotFound(selector))),
            },
            ReadingHtml::Element => StepView::Done(shown(event, "No HTML"@)),
            ReadingHtml::Page => StepView::<ReadingHtml<Seq<char>>, Seq<char>>::Done(
                event.text_or_failure(),
            ),
        }
    }
}

impl Operation for ReadingHtml<String> {
    type Output = String;

    fn resume(self, manager: &mut BrowserManager, event: Event) -> (step: Step<Self, String>)
        ensures
            final(manager)@ == old(manager)@,
            step.deep_view() == self.deep_view().next(event),
    {
        match self {
            ReadingHtml::Finding { selector } => match event.into_element() {
                Some(element) => Step::Ask(Action::ElementHtml { element }, ReadingHtml::Element),
                None => Step::Done(Err(BrowserError::ElementNotFound(selector))),
            },
            ReadingHtml::Element => Step::Done(read_shown(event, "No HTML")),
            ReadingHtml::Page => Step::Done(event.into_text_or_failure()),
        }
    }
}

/// Reads the text of an element.
#[derive(Debug)]
pub enum ReadingText<S> {
    /// The element is looked for.
    Finding { selector: S },
    /// Its text is read.
    Reading,
}

impl DeepView for ReadingText<String> {
    type V = ReadingText<Seq<char>>;

    open spec fn deep_view(&self) -> ReadingText<Seq<char>> {
        match self {
            ReadingText::Finding { selector } => ReadingText::Finding { selector: selector@ },
            ReadingText::Reading => ReadingText::Reading,
        }
    }
}

impl ReadingText<Seq<char>> {
    /// What comes after an event.
    pub open spec fn next(self, event: Event) -> StepView<ReadingText<Seq<char>>, Seq<char>> {
        match self {
            ReadingText::Finding { selector } => match event.element() {
                Some(element) => StepView::Ask(
                    ActionView::ElementText { element },
                    ReadingText::Reading,
                ),
                None => StepView::Done(Err(ErrorView::ElementNotFound(selector))),
            },
            ReadingText::Reading => StepView::<ReadingText<Seq<char>>, Seq<char>>::Done(
                shown(event, "No text"@),
            ),
        }
    }
}

impl Operation for ReadingText<String> {
    type Output = String;

    fn resume(self, manager: &mut BrowserManager, event: Event) -> (step: Step<Self, String>)
        ensures
            final(manager)@ == old(manager)@,
            step.deep_view() == self.deep_view().next(event),
    {
        match self {
            ReadingText::Finding { selector } => match event.into_element() {
                Some(element) => Step::Ask(Action::ElementText { element }, ReadingText::Reading),
                None => Step::Done(Err(BrowserError::ElementNotFound(selector))),
            },
            ReadingText::Reading => Step::Done(read_shown(event, "No text")),
        }
    }
}

/// Reads the cookies of the page: those that the browser tells, or, where it fails to, those
/// that scripts can see.
#[derive(Debug)]
pub enum ReadingCookies {
    /// The browser is asked.
    Browser,
    /// A script is asked.
    Script,
}

impl DeepView for ReadingCookies {
    type V = ReadingCookies;

    open spec fn deep_view(&self) -> ReadingCookies {
        *self
    }
}

/// A cookie as it is listed.
pub open spec fn cookie_json(cookie: CookieView) -> JsonView {
    JsonView::Object(
        seq![
            ("name"@, JsonView::Text(cookie.name)),
            ("value"@, JsonView::Text(cookie.value)),
            ("domain"@, JsonView::Text(cookie.domain)),
        ],
    )
}

/// Cookies as they are listed.
pub open spec fn cookie_list(cookies: Seq<CookieView>) -> Seq<JsonView> {
    cookies.map_values(|c: CookieView| cookie_json(c))
}

/// Cookies as they are listed.
pub fn list_cookies(cookies: &Vec<Cookie>) -> (r: Vec<Json>)
    ensures
        r.deep_view() == cookie_list(cookies.deep_view()),
{
    let mut r: Vec<Json> = no_items();
    let mut i: usize = 0;
    while i < cookies.len()
        invariant
            i <= cookies@.len(),
            r.deep_view() == cookie_list(cookies.deep_view().take(i as int)),
        decreases cookies@.len() - i,
    {
        let cookie: &Cookie = &cookies[i];
        let mut fields: Vec<(String, Json)> = no_fields();
        push_field(&mut fields, "name", Json::text(cookie.name.as_str()));
        push_field(&mut fields, "value", Json::text(cookie.value.as_str()));
        push_field(&mut fields, "domain", Json::text(cookie.domain.as_str()));
        assert(json::members(fields@) =~= cookie_json(cookie.deep_view())->Object_0);
        push_item(&mut r, Json::object(fields));
        i = i + 1;
        assert(r.deep_view() =~= cookie_list(cookies.deep_view().take(i as int)));
    }
    assert(cookies.deep_view().take(i as int) =~= cookies.deep_view());
    r
}

impl ManagerView {
    /// The first step of setting a cookie.
    pub open spec fn set_cookie(self, cookie: CookieView) -> StepView<Running, ()> {
        self.on_page(
            |page: PageId|
                ActionView::SetCookie {
                    page,
                    name: cookie.name,
                    value: cookie.value,
                    domain: cookie.domain,
                },
            Running {  },
        )
    }

    /// The first step of reading the cookies of the page.
    pub open spec fn get_cookies(self) -> StepView<ReadingCookies, Seq<JsonView>> {
        self.on_page(|page: PageId| ActionView::ReadCookies { page }, ReadingCookies::Browser)
    }

    /// What comes after an event while the cookies are read.
    pub open spec fn cookies_next(self, stage: ReadingCookies, event: Event) -> StepView<
        ReadingCookies,
        Seq<JsonView>,
    > {
        match stage {
            ReadingCookies::Browser => match event {
                Event::Cookies(cookies) => StepView::Done(Ok(cookie_list(cookies.deep_view()))),
                _ => self.ask(scripts::READ_COOKIES@, ReadingCookies::Script),
            },
            ReadingCookies::Script => StepView::Done(
                match event.value() {
                    Ok(value) => Ok(evaluation::items_of(value)),
                    Err(e) => Err(e),
                },
            ),
        }
    }
}

impl Operation for ReadingCookies {
    type Output = Vec<Json>;

    fn resume(self, manager: &mut BrowserManager, event: Event) -> (step: Step<Self, Vec<Json>>)
        ensures
            final(manager)@ == old(manager)@,
            step.deep_view() == old(manager)@.cookies_next(self, event),
    {
        match self {
            ReadingCookies::Browser => match event {
                Event::Cookies(cookies) => Step::Done(Ok(list_cookies(&cookies))),
                _ => manager.ask(scripts::READ_COOKIES.to_owned(), ReadingCookies::Script),
            },
            ReadingCookies::Script => match event.into_value() {
                Ok(value) => Step::Done(Ok(into_items(value))),
                Err(e) => Step::Done(Err(e)),
            },
        }
    }
}

/// Deletes the cookies of the page: all that reading them lists.
#[derive(Debug)]
pub enum ClearingCookies {
    /// The cookies are read.
    Listing(ReadingCookies),
    /// They are deleted.
    Deleting,
}

impl DeepView for ClearingCookies {
    type V = ClearingCookies;

    open spec fn deep_view(&self) -> ClearingCookies {
        *self
    }
}

/// The cookie that an entry of a list stands for.
pub open spec fn listed_cookie(entry: JsonView) -> CookieView {
    CookieView {
        name: entry.str_or("name"@, ""@),
        value: entry.str_or("value"@, ""@),
        domain: entry.str_or("domain"@, ""@),
    }
}

/// The cookies that a list stands for.
pub open spec fn listed_cookies(entries: Seq<JsonView>) -> Seq<CookieView> {
    entries.map_values(|entry: JsonView| listed_cookie(entry))
}

/// The cookies that a list stands for.
pub fn take_cookies(entries: &Vec<Json>) -> (r: Vec<Cookie>)
    ensures
        r.deep_view() == listed_cookies(entries.deep_view()),
{
    let mut r: Vec<Cookie> = Vec::new();
    let mut i: usize = 0;
    assert(r.deep_view() =~= listed_cookies(entries.deep_view().take(0)));
    while i < entries.len()
        invariant
            i <= entries@.len(),
            r.deep_view() == listed_cookies(entries.deep_view().take(i as int)),
        decreases entries@.len() - i,
    {
        let entry: &Json = &entries[i];
        let ghost before: Seq<CookieView> = r.deep_view();
        let cookie: Cookie = Cookie {
            name: entry.str_or("name", ""),
            value: entry.str_or("value", ""),
            domain: entry.str_or("domain", ""),
        };
        r.push(cookie);
        assert(r.deep_view() =~= before.push(cookie.deep_view()));
        i = i + 1;
        assert(r.deep_view() =~= listed_cookies(entries.deep_view().take(i as int)));
    }
    assert(entries.deep_view().take(i as int) =~= entries.deep_view());
    r
}

impl ManagerView {
    /// Puts a step of reading the cookies into the whole; those that are listed are deleted.
    pub open spec fn clear_listed(self, step: StepView<ReadingCookies, Seq<JsonView>>) -> StepView<
        ClearingCookies,
        (),
    > {
        match step {
            StepView::Ask(action, inner) => StepView::Ask(action, ClearingCookies::Listing(inner)),
            StepView::Done(Ok(entries)) => self.on_page(
                |page: PageId|
                    ActionView::DeleteCookies { page, cookies: listed_cookies(entries) },
                ClearingCookies::Deleting,
            ),
            StepView::Done(Err(e)) => StepView::Done(Err(e)),
        }
    }

    /// The first step of deleting the cookies.
    pub open spec fn clear_cookies(self) -> StepView<ClearingCookies, ()> {
        self.clear_listed(self.get_cookies())
    }

    /// What comes after an event while the cookies are deleted.
    pub open spec fn clear_next(self, stage: ClearingCookies, event: Event) -> StepView<
        ClearingCookies,
        (),
    > {
        match stage {
            ClearingCookies::Listing(inner) => self.clear_listed(self.cookies_next(inner, event)),
            ClearingCookies::Deleting => StepView::Done(event.outcome()),
        }
    }
}

impl Operation for ClearingCookies {
    type Output = ();

    fn resume(self, manager: &mut BrowserManager, event: Event) -> (step: Step<Self, ()>)
        ensures
            final(manager)@ == old(manager)@,
            step.deep_view() == old(manager)@.clear_next(self, event),
    {
        match self {
            ClearingCookies::Listing(inner) => {
                let listing: Step<ReadingCookies, Vec<Json>> = inner.resume(manager, event);
                manager.clear_listed(listing)
            },
            ClearingCookies::Deleting => Step::Done(event.into_outcome()),
        }
    }
}

/// Scrolls to an element.
#[derive(Debug)]
pub enum Hovering<S> {
    /// The element is looked for.
    Finding { selector: S },
    /// The page scrolls.
    Scrolling,
}

impl DeepView for Hovering<String> {
    type V = Hovering<Seq<char>>;

    open spec fn deep_view(&self) -> Hovering<Seq<char>> {
        match self {
            Hovering::Finding { selector } => Hovering::Finding { selector: selector@ },
            Hovering::Scrolling => Hovering::Scrolling,
        }
    }
}

impl Hovering<Seq<char>> {
    /// What comes after an event.
    pub open spec fn next(self, event: Event) -> StepView<Hovering<Seq<char>>, ()> {
        match self {
            Hovering::Finding { selector } => match event.element() {
                Some(element) => StepView::Ask(
                    ActionView::ScrollIntoView { element },
                    Hovering::Scrolling,
                ),
                None => StepView::Done(Err(ErrorView::ElementNotFound(selector))),
            },
            Hovering::Scrolling => StepView::<Hovering<Seq<char>>, ()>::Done(Ok(())),
        }
    }
}

impl Operation for Hovering<String> {
    type Output = ();

    fn resume(self, manager: &mut BrowserManager, event: Event) -> (step: Step<Self, ()>)
        ensures
            final(manager)@ == old(manager)@,
            step.deep_view() == self.deep_view().next(event),
    {
        match self {
            Hovering::Finding { selector } => match event.into_element() {
                Some(element) => Step::Ask(Action::ScrollIntoView { element }, Hovering::Scrolling),
                None => Step::Done(Err(BrowserError::ElementNotFound(selector))),
            },
            Hovering::Scrolling => Step::Done(Ok(())),
        }
    }
}

/// Focuses an element.
#[derive(Debug)]
pub enum Focusing<S> {
    /// The element is looked for.
    Finding { selector: S },
    /// It gets the focus.
    Focusing,
}

impl DeepView for Focusing<String> {
    type V = Focusing<Seq<char>>;

    open spec fn deep_view(&self) -> Focusing<Seq<char>> {
        match self {
            Focusing::Finding { selector } => Focusing::Finding { selector: selector@ },
            Focusing::Focusing => Focusing::Focusing,
        }
    }
}

impl Focusing<Seq<char>> {
    /// What comes after an event.
    pub open spec fn next(self, event: Event) -> StepView<Focusing<Seq<char>>, ()> {
        match self {
            Focusing::Finding { selector } => match event.element() {
                Some(element) => StepView::Ask(
                    ActionView::FocusElement { element },
                    Focusing::Focusing,
                ),
                None => StepView::Done(Err(ErrorView::ElementNotFound(selector))),
            },
            Focusing::Focusing => StepView::<Focusing<Seq<char>>, ()>::Done(event.outcome()),
        }
    }
}

impl Operation for Focusing<String> {
    type Output = ();

    fn resume(self, manager: &mut BrowserManager, event: Event) -> (step: Step<Self, ()>)
        ensures
            final(manager)@ == old(manager)@,
            step.deep_view() == self.deep_view().next(event),
    {
        match self {
            Focusing::Finding { selector } => match event.into_element() {
                Some(element) => Step::Ask(Action::FocusElement { element }, Focusing::Focusing),
                None => Step::Done(Err(BrowserError::ElementNotFound(selector))),
            },
            Focusing::Focusing => Step::Done(event.into_outcome()),
        }
    }
}

/// Looks whether an element is there.
#[derive(Debug)]
pub struct Looking {}

impl DeepView for Looking {
    type V = Looking;

    open spec fn deep_view(&self) -> Looking {
        *self
    }
}

impl Looking {
    /// What comes after an event.
    pub open spec fn next(self, event: Event) -> StepView<Looking, bool> {
        StepView::<Looking, bool>::Done(Ok(event.element() is Some))
    }
}

impl Operation for Looking {
    type Output = bool;

    fn resume(self, manager: &mut BrowserManager, event: Event) -> (step: Step<Self, bool>)
        ensures
            final(manager)@ == old(manager)@,
            step.deep_view() == self.next(event),
    {
        Step::Done(Ok(event.into_element().is_some()))
    }
}

impl ManagerView {
    /// The first step of an operation that makes a request about the active page.
    pub open spec fn on_page<P, T>(
        self,
        action: spec_fn(PageId) -> ActionView,
        next: P,
    ) -> StepView<P, T> {
        match self.page() {
            Some(page) => StepView::Ask(action(page), next),
            None => StepView::Done(Err(ErrorView::NoPage)),
        }
    }

    /// The first step of an operation that looks for an element.
    pub open spec fn find<P, T>(self, selector: Seq<char>, next: P) -> StepView<P, T> {
        self.on_page(|page: PageId| ActionView::FindElement { page, selector }, next)
    }
}

impl ManagerView {
    /// The state in which an address is the current one.
    pub open spec fn headed_for(self, url: Seq<char>) -> ManagerView {
        ManagerView { current_url: url, ..self }
    }

    /// The first step of loading an address.
    pub open spec fn navigate(self, url: Seq<char>) -> StepView<Navigating, Seq<char>> {
        match self.page() {
            Some(page) => StepView::Ask(
                ActionView::Goto { page, url: url },
                Navigating::Going { page },
            ),
            None => StepView::<Navigating, Seq<char>>::Done(Err(ErrorView::NoPage)),
        }
    }
}

impl ManagerView {
    /// The first step of taking a picture.
    pub open spec fn screenshot(self, full_page: bool, quality: u8) -> StepView<Picturing, Seq<char>> {
        self.on_page::<Picturing, Seq<char>>(
            |page: PageId| ActionView::Screenshot { page, full_page, quality },
            Picturing {  },
        )
    }
}

impl ManagerView {
    /// The first step of taking a picture for a file.
    pub open spec fn screenshot_to_file(self, path: Seq<char>, full_page: bool, quality: u8) -> StepView<PicturingToFile<Seq<char>>, Seq<char>> {
        self.on_page::<PicturingToFile<Seq<char>>, Seq<char>>(
            |page: PageId| ActionView::Screenshot { page, full_page, quality },
            PicturingToFile::Taking { path: path },
        )
    }
}

impl ManagerView {
    /// The first step of taking a picture of an element.
    pub open spec fn screenshot_element(self, selector: Seq<char>) -> StepView<PicturingElement<Seq<char>>, Seq<char>> {
        self.find::<PicturingElement<Seq<char>>, Seq<char>>(
            selector,
            PicturingElement::Finding { selector: selector },
        )
    }
}

impl ManagerView {
    /// The first step of reading the HTML of an element or of the page.
    pub open spec fn get_html(self, selector: Option<Seq<char>>) -> StepView<ReadingHtml<Seq<char>>, Seq<char>> {
        match selector {
            Some(sel) => self.find::<ReadingHtml<Seq<char>>, Seq<char>>(
                sel,
                ReadingHtml::Finding { selector: sel },
            ),
            None => self.on_page(
                |page: PageId| ActionView::PageContent { page },
                ReadingHtml::Page,
            ),
        }
    }
}

impl ManagerView {
    /// The first step of reading the text of an element.
    pub open spec fn get_text(self, selector: Seq<char>) -> StepView<ReadingText<Seq<char>>, Seq<char>> {
        self.find::<ReadingText<Seq<char>>, Seq<char>>(
            selector,
            ReadingText::Finding { selector: selector },
        )
    }
}

impl ManagerView {
    /// The first step of scrolling to an element.
    pub open spec fn hover(self, selector: Seq<char>) -> StepView<Hovering<Seq<char>>, ()> {
        self.find::<Hovering<Seq<char>>, ()>(
            selector,
            Hovering::Finding { selector: selector },
        )
    }
}

impl ManagerView {
    /// The first step of focusing an element.
    pub open spec fn focus(self, selector: Seq<char>) -> StepView<Focusing<Seq<char>>, ()> {
        self.find::<Focusing<Seq<char>>, ()>(
            selector,
            Focusing::Finding { selector: selector },
        )
    }
}

impl ManagerView {
    /// The first step of looking whether an element is there.
    pub open spec fn element_exists(self, selector: Seq<char>) -> StepView<Looking, bool> {
        self.find::<Looking, bool>(selector, Looking {  })
    }
}

impl BrowserManager {
    /// Looks for an element on the active page and goes on with `next`.
    pub(crate) fn find<P: DeepView, T: DeepView>(&self, selector: &str, next: P) -> (step: Step<
        P,
        T,
    >)
        ensures
            step.deep_view() == self@.find::<P::V, T::V>(selector@, next.deep_view()),
    {
        match self.page() {
            Ok(page) => Step::Ask(
                Action::FindElement { page, selector: selector.to_owned() },
                next,
            ),
            Err(e) => Step::Done(Err(e)),
        }
    }

    fn burst_next(
        &self,
        count: usize,
        interval_ms: u64,
        quality: u8,
        shots: Vec<String>,
    ) -> (step: Step<Bursting<Vec<String>>, Vec<String>>)
        ensures
            step.deep_view() == self@.burst_next(
                count as int,
                interval_ms,
                quality,
                shots.deep_view(),
            ),
    {
        if count == 0 {
            Step::Done(Ok(shots))
        } else {
            match self.page() {
                Ok(page) => Step::Ask(
                    Action::Screenshot { page, full_page: false, quality },
                    Bursting::Taking { after: count - 1, interval_ms, quality, shots },
                ),
                Err(e) => Step::Done(Err(e)),
            }
        }
    }

    /// Loads an address in the active page; the result is the title. The address counts as the
    /// current one from now on, whatever becomes of it.
    pub fn navigate(&mut self, url: &str, _wait_until: &str) -> (step: Step<Navigating, String>)
        ensures
            final(self)@ == old(self)@.headed_for(url@),
            step.deep_view() == old(self)@.navigate(url@),
    {
        self.current_url = url.to_owned();
        match self.page() {
            Ok(page) => Step::Ask(
                Action::Goto { page, url: url.to_owned() },
                Navigating::Going { page },
            ),
            Err(e) => Step::Done(Err(e)),
        }
    }

    /// Takes a picture of the active page; the result is its base64 text.
    pub fn screenshot(&self, full_page: bool, quality: u8) -> (step: Step<Picturing, String>)
        ensures
            step.deep_view() == self@.screenshot(full_page, quality),
    {
        match self.page() {
            Ok(page) => Step::Ask(Action::Screenshot { page, full_page, quality }, Picturing {  }),
            Err(e) => Step::Done(Err(e)),
        }
    }

    /// Takes a picture of the active page and writes it to a file; the result is its path.
    pub fn screenshot_to_file(&self, path: &str, full_page: bool, quality: u8) -> (step: Step<
        PicturingToFile<String>,
        String,
    >)
        ensures
            step.deep_view() == self@.screenshot_to_file(path@, full_page, quality),
    {
        match self.page() {
            Ok(page) => Step::Ask(
                Action::Screenshot { page, full_page, quality },
                PicturingToFile::Taking { path: path.to_owned() },
            ),
            Err(e) => Step::Done(Err(e)),
        }
    }

    /// Takes a picture of an element; the result is its base64 text.
    pub fn screenshot_element(&self, selector: &str, _quality: u8) -> (step: Step<
        PicturingElement<String>,
        String,
    >)
        ensures
            step.deep_view() == self@.screenshot_element(selector@),
    {
        self.find(selector, PicturingElement::Finding { selector: selector.to_owned() })
    }

    /// Takes pictures of the active page, with a pause after each.
    pub fn screenshot_burst(&self, count: usize, interval_ms: u64, quality: u8) -> (step: Step<
        Bursting<Vec<String>>,
        Vec<String>,
    >)
        ensures
            step.deep_view() == self@.screenshot_burst(count, interval_ms, quality),
    {
        let shots: Vec<String> = Vec::new();
        assert(shots.deep_view() =~= Seq::<Seq<char>>::empty());
        self.burst_next(count, interval_ms, quality, shots)
    }

    /// Asks for the HTML of an element, or of the whole page.
    pub fn get_html(&self, selector: Option<&str>) -> (step: Step<ReadingHtml<String>, String>)
        ensures
            step.deep_view() == self@.get_html(match selector {
                Some(sel) => Some(sel@),
                None => None,
            }),
    {
        match selector {
            Some(sel) => self.find(sel, ReadingHtml::Finding { selector: sel.to_owned() }),
            None => match self.page() {
                Ok(page) => Step::Ask(Action::PageContent { page }, ReadingHtml::Page),
                Err(e) => Step::Done(Err(e)),
            },
        }
    }

    /// Asks for the text of an element.
    pub fn get_text(&self, selector: &str) -> (step: Step<ReadingText<String>, String>)
        ensures
            step.deep_view() == self@.get_text(selector@),
    {
        self.find(selector, ReadingText::Finding { selector: selector.to_owned() })
    }

    /// Asks for the cookies of the page.
    pub fn get_cookies(&self) -> (step: Step<ReadingCookies, Vec<Json>>)
        ensures
            step.deep_view() == self@.get_cookies(),
    {
        match self.page() {
            Ok(page) => Step::Ask(Action::ReadCookies { page }, ReadingCookies::Browser),
            Err(e) => Step::Done(Err(e)),
        }
    }

    /// Sets a cookie.
    pub fn set_cookie(&self, name: &str, value: &str, domain: &str) -> (step: Step<Running, ()>)
        ensures
            step.deep_view() == self@.set_cookie(
                CookieView { name: name@, value: value@, domain: domain@ },
            ),
    {
        match self.page() {
            Ok(page) => Step::Ask(
                Action::SetCookie {
                    page,
                    name: name.to_owned(),
                    value: value.to_owned(),
                    domain: domain.to_owned(),
                },
                Running {  },
            ),
            Err(e) => Step::Done(Err(e)),
        }
    }

    fn clear_listed(&self, listing: Step<ReadingCookies, Vec<Json>>) -> (step: Step<
        ClearingCookies,
        (),
    >)
        ensures
            step.deep_view() == self@.clear_listed(listing.deep_view()),
    {
        match listing {
            Step::Ask(action, inner) => Step::Ask(action, ClearingCookies::Listing(inner)),
            Step::Done(Ok(entries)) => match self.page() {
                Ok(page) => Step::Ask(
                    Action::DeleteCookies { page, cookies: take_cookies(&entries) },
                    ClearingCookies::Deleting,
                ),
                Err(e) => Step::Done(Err(e)),
            },
            Step::Done(Err(e)) => Step::Done(Err(e)),
        }
    }

    /// Deletes the cookies of the page: every one that [`BrowserManager::get_cookies`] lists.
    pub fn clear_cookies(&self) -> (step: Step<ClearingCookies, ()>)
        ensures
            step.deep_view() == self@.clear_cookies(),
    {
        self.clear_listed(self.get_cookies())
    }

    /// Scrolls to an element.
    pub fn hover(&self, selector: &str) -> (step: Step<Hovering<String>, ()>)
        ensures
            step.deep_view() == self@.hover(selector@),
    {
        self.find(selector, Hovering::Finding { selector: selector.to_owned() })
    }

    /// Focuses an element.
    pub fn focus(&self, selector: &str) -> (step: Step<Focusing<String>, ()>)
        ensures
            step.deep_view() == self@.focus(selector@),
    {
        self.find(selector, Focusing::Finding { selector: selector.to_owned() })
    }

    /// Asks whether an element is there.
    pub fn element_exists(&self, selector: &str) -> (step: Step<Looking, bool>)
        ensures
            step.deep_view() == self@.element_exists(selector@),
    {
        self.find(selector, Looking {  })
    }
}

} // verus!
