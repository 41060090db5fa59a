//! Browser actions on the hwatu daemon: which request an action sends, and what
//! its response is turned into.
use crate::hwatu;
use crate::hwatu::{eval_request, list_request, list_windows, member_or_null, SessionWindow};
use crate::hwatu_scripts;
use crate::hwatu_scripts::{
    click_js, click_point_js, fill_js, interactables_js, scroll_bottom_js, scroll_by_js,
    scroll_match_js, scroll_to_js, scroll_top_js, type_js, wait_js, LIST_FRAMES, PAGE_HTML,
    PAGE_TEXT, PAGE_TITLE,
};
use crate::json;
use crate::json::{
    array_value, bool_value, clone_value, compact_json, get_member, get_text, is_true, null_value,
    pretty_json, quote_text, text_value, ObjectBuilder,
};
use crate::text;
use crate::text::{
    append_decimal, clone_opt, decimal_int_text, decimal_text, join_texts, text_eq,
};
use serde_json::Value;
use vstd::prelude::*;
use vstd::string::*;

verus! {

// ---------------------------------------------------------------------------
// Input and output
// ---------------------------------------------------------------------------

/// One field of a form.
#[derive(Debug)]
pub struct FormField {
    pub selector: String,
    pub value: Option<String>,
    pub checked: Option<bool>,
}

/// A position on a page. The coordinates are in decimal notation.
#[derive(Debug)]
pub struct ScrollTarget {
    pub x: Option<String>,
    pub y: Option<String>,
}

/// The arguments of a browser action. Coordinates are in decimal notation.
#[derive(Debug)]
pub struct BrowserInput {
    pub url: Option<String>,
    pub new_tab: Option<bool>,
    pub window_id: Option<i64>,
    pub tab_id: Option<i64>,
    pub wait: Option<bool>,
    pub timeout_ms: Option<u64>,
    pub focus: Option<bool>,
    pub format: Option<String>,
    pub selector: Option<String>,
    pub text: Option<String>,
    pub x: Option<String>,
    pub y: Option<String>,
    pub clear: Option<bool>,
    pub submit: Option<bool>,
    pub fields: Option<Vec<FormField>>,
    pub contains: Option<String>,
    pub script: Option<String>,
    pub position: Option<String>,
    pub scroll_to: Option<ScrollTarget>,
    pub key: Option<String>,
    pub provider_action: Option<String>,
    pub params: Option<Value>,
    pub path: Option<String>,
}

/// An image that accompanies an output, its bytes in base64.
#[derive(Debug)]
pub struct LabeledImage {
    pub media_type: String,
    pub data: String,
    pub label: String,
}

/// What an action shows.
#[derive(Debug)]
pub struct ToolOutput {
    pub text: String,
    pub title: String,
    pub metadata: Option<Value>,
    pub image: Option<LabeledImage>,
}

/// Why an action cannot be carried out.
#[derive(Debug)]
pub enum ActionError {
    /// The arguments do not make a request.
    Invalid(String),
    /// A text or a document was not written as JSON. `serde_json` writes all of
    /// them, so this does not come up.
    Json(serde_json::Error),
}

/// The title of an action's output.
pub open spec fn title_of(action: Seq<char>) -> Seq<char> {
    "browser "@ + action
}

/// The title of an action's output.
pub fn window_title(action: &str) -> (r: String)
    ensures
        r@ == title_of(action@),
{
    "browser ".to_owned().concat(action)
}

/// A flag that is off unless it is set.
pub open spec fn is_on(flag: Option<bool>) -> bool {
    flag == Some(true)
}

fn on(flag: Option<bool>) -> (r: bool)
    ensures
        r == is_on(flag),
{
    match flag {
        Some(b) => b,
        None => false,
    }
}

/// The mode in which a window is opened.
pub open spec fn mode_of(focus: Option<bool>, preference: Option<Seq<char>>) -> Seq<char> {
    if is_on(focus) || preference == Some("normal"@) {
        "normal"@
    } else if preference == Some("background"@) {
        "background"@
    } else {
        "headless"@
    }
}

/// The mode in which a window is opened.
///
/// Agents verify pages, so the default is headless: no window is ever shown. An
/// explicit `focus` opts into a normal window. `preference` overrides the default
/// for the rest.
pub fn open_mode(focus: Option<bool>, preference: Option<&str>) -> (r: &'static str)
    ensures
        r@ == mode_of(focus, text::opt_str_view(preference)),
{
    proof {
        reveal_strlit("normal");
        reveal_strlit("background");
        assert("normal"@.len() != "background"@.len());
    }
    if on(focus) {
        return "normal";
    }
    match preference {
        Some(p) => if text_eq(p, "background") {
            "background"
        } else if text_eq(p, "normal") {
            "normal"
        } else {
            "headless"
        },
        None => "headless",
    }
}

// ---------------------------------------------------------------------------
// Plans
// ---------------------------------------------------------------------------

/// What the response to a request is turned into.
#[derive(Debug)]
pub enum Finish {
    /// The address was opened.
    Opened(String),
    /// The list of windows.
    ListTabs,
    /// The focused window.
    ActiveTab,
    /// The new window.
    NewTab,
    /// The window was focused.
    Focused(i64),
    /// The text that a script returned.
    Content,
    /// The elements that a script found.
    Interactables,
    /// The value that a script or a command returned.
    ShowValue,
    /// The value that the caller's own script returned.
    Eval,
    /// The image was written to this path.
    Screenshot(String),
    /// The whole response.
    Response,
}

/// How an action is carried out.
#[derive(Debug)]
pub enum HwatuPlan {
    /// Send the request to the daemon.
    Send { request: Value, finish: Finish },
    /// Have a script built that presses a key, and run it.
    Press { key: Option<String>, selector: Option<String> },
}

/// Whether the arguments are refused with the given words.
pub open spec fn refuses(r: Result<HwatuPlan, ActionError>, message: Seq<char>) -> bool {
    r matches Err(ActionError::Invalid(m)) && m@ == message
}

/// Whether a request with the given fields is sent.
pub open spec fn sends(
    r: Result<HwatuPlan, ActionError>,
    fields: Map<Seq<char>, json::JsonView>,
) -> bool {
    r matches Ok(HwatuPlan::Send { request, .. }) && json::object_fields(request) == fields
}

/// What the response to a planned request is turned into.
pub open spec fn finish_of(r: Result<HwatuPlan, ActionError>) -> Option<Finish> {
    match r {
        Ok(HwatuPlan::Send { finish, .. }) => Some(finish),
        _ => None,
    }
}

/// Whether a script is run in the window, and its value shown.
pub open spec fn runs(
    r: Result<HwatuPlan, ActionError>,
    window_id: Option<i64>,
    js: Seq<char>,
    timeout_ms: Option<u64>,
    finish: Finish,
) -> bool {
    sends(r, hwatu::eval_fields(window_id, js, timeout_ms)) && finish_of(r) == Some(finish)
}

fn invalid(message: &str) -> (r: Result<HwatuPlan, ActionError>)
    ensures
        refuses(r, message@),
{
    Err(ActionError::Invalid(message.to_owned()))
}

fn run(window_id: Option<i64>, js: &str, timeout_ms: Option<u64>, finish: Finish) -> (r: Result<
    HwatuPlan,
    ActionError,
>)
    ensures
        runs(r, window_id, js@, timeout_ms, finish),
{
    Ok(HwatuPlan::Send { request: eval_request(window_id, js, timeout_ms), finish })
}

/// The JSON notation of an optional text.
pub open spec fn quoted(s: Option<Seq<char>>) -> Seq<char> {
    match s {
        Some(s) => json::json_quoted(s),
        None => "null"@,
    }
}

fn quote_opt(s: Option<&str>) -> (r: Result<String, serde_json::Error>)
    ensures
        r matches Ok(q) && q@ == quoted(text::opt_str_view(s)),
{
    match s {
        Some(s) => quote_text(s),
        None => Ok("null".to_owned()),
    }
}

/// An optional text, borrowed.
fn borrowed(s: &Option<String>) -> (r: Option<&str>)
    ensures
        text::opt_str_view(r) == text::opt_view(*s),
{
    match s {
        Some(s) => Some(s.as_str()),
        None => None,
    }
}

/// Whether `r` is the plan that opens an address: a new window where the session
/// has none or asks for one, else a navigation of its window.
pub open spec fn is_open_plan(
    r: Result<HwatuPlan, ActionError>,
    input: BrowserInput,
    window_id: Option<i64>,
    mode: Seq<char>,
) -> bool {
    match input.url {
        None => refuses(r, "url is required for open"@),
        Some(url) => {
            &&& finish_of(r) matches Some(Finish::Opened(u)) && u@ == url@
            &&& if window_id is None || is_on(input.new_tab) {
                sends(
                    r,
                    hwatu::command("open"@).insert("url"@, json::JsonView::Text(url@)).insert(
                        "mode"@,
                        json::JsonView::Text(mode),
                    ),
                )
            } else {
                sends(
                    r,
                    json::with_integer(
                        json::with_integer(
                            hwatu::command("navigate"@).insert(
                                "url"@,
                                json::JsonView::Text(url@),
                            ).insert("wait"@, json::JsonView::Bool(input.wait != Some(false))),
                            "id"@,
                            hwatu::opt_i64(window_id),
                        ),
                        "timeout_ms"@,
                        hwatu::opt_u64(input.timeout_ms),
                    ),
                )
            }
        },
    }
}

/// Opens an address.
///
/// Without a window of its own the session opens one: navigating without an id
/// could take over a window that another session drives.
pub fn plan_open(input: &BrowserInput, window_id: Option<i64>, mode: &str) -> (r: Result<
    HwatuPlan,
    ActionError,
>)
    ensures
        is_open_plan(r, *input, window_id, mode@),
{
    let url: &str = match &input.url {
        Some(url) => url.as_str(),
        None => {
            return invalid("url is required for open");
        },
    };
    let mut b: ObjectBuilder = ObjectBuilder::new();
    if window_id.is_none() || on(input.new_tab) {
        b.set_text("cmd", "open");
        b.set_text("url", url);
        b.set_text("mode", mode);
    } else {
        b.set_text("cmd", "navigate");
        b.set_text("url", url);
        let wait: bool = match input.wait {
            Some(w) => w,
            None => true,
        };
        b.set_bool("wait", wait);
        b.set_i64("id", window_id);
        b.set_u64("timeout_ms", input.timeout_ms);
    }
    Ok(HwatuPlan::Send { request: b.build(), finish: Finish::Opened(url.to_owned()) })
}

/// Whether `r` is the plan that opens a new window.
pub open spec fn is_new_tab_plan(
    r: Result<HwatuPlan, ActionError>,
    input: BrowserInput,
    mode: Seq<char>,
) -> bool {
    let fields = hwatu::command("open"@).insert("mode"@, json::JsonView::Text(mode));
    &&& finish_of(r) == Some(Finish::NewTab)
    &&& sends(
        r,
        match input.url {
            Some(url) => fields.insert("url"@, json::JsonView::Text(url@)),
            None => fields,
        },
    )
}

/// Opens a new window, at an address if one is given.
pub fn plan_new_tab(input: &BrowserInput, mode: &str) -> (r: Result<HwatuPlan, ActionError>)
    ensures
        is_new_tab_plan(r, *input, mode@),
{
    let mut b: ObjectBuilder = ObjectBuilder::new();
    b.set_text("cmd", "open");
    b.set_text("mode", mode);
    if let Some(url) = &input.url {
        b.set_text("url", url.as_str());
    }
    Ok(HwatuPlan::Send { request: b.build(), finish: Finish::NewTab })
}

/// Whether `r` is the plan that focuses a window.
pub open spec fn is_select_tab_plan(r: Result<HwatuPlan, ActionError>, input: BrowserInput) -> bool {
    match (input.tab_id, input.window_id) {
        (None, None) => refuses(r, "tab_id is required for select_tab"@),
        (tab, window) => {
            let id = if tab is Some {
                tab->0
            } else {
                window->0
            };
            &&& finish_of(r) == Some(Finish::Focused(id))
            &&& sends(r, hwatu::command("focus"@).insert("id"@, json::JsonView::Integer(id as int)))
        },
    }
}

/// Focuses a window.
pub fn plan_select_tab(input: &BrowserInput) -> (r: Result<HwatuPlan, ActionError>)
    ensures
        is_select_tab_plan(r, *input),
{
    let id: i64 = match (input.tab_id, input.window_id) {
        (Some(id), _) => id,
        (None, Some(id)) => id,
        (None, None) => {
            return invalid("tab_id is required for select_tab");
        },
    };
    let mut b: ObjectBuilder = ObjectBuilder::new();
    b.set_text("cmd", "focus");
    b.set_i64("id", Some(id));
    Ok(HwatuPlan::Send { request: b.build(), finish: Finish::Focused(id) })
}

/// The script that reads a page in a format.
pub open spec fn content_script(format: Seq<char>) -> Seq<char> {
    if format == "html"@ {
        PAGE_HTML@
    } else if format == "title"@ {
        PAGE_TITLE@
    } else {
        PAGE_TEXT@
    }
}

/// Whether `r` is the plan that reads a page. A snapshot is always text.
pub open spec fn is_content_plan(
    r: Result<HwatuPlan, ActionError>,
    input: BrowserInput,
    window_id: Option<i64>,
    snapshot: bool,
) -> bool {
    let format = if snapshot || input.format is None {
        "text"@
    } else {
        input.format->0@
    };
    runs(r, window_id, content_script(format), input.timeout_ms, Finish::Content)
}

/// Reads a page.
pub fn plan_content(input: &BrowserInput, window_id: Option<i64>, snapshot: bool) -> (r: Result<
    HwatuPlan,
    ActionError,
>)
    ensures
        is_content_plan(r, *input, window_id, snapshot),
{
    let format: &str = if snapshot {
        "text"
    } else {
        match &input.format {
            Some(f) => f.as_str(),
            None => "text",
        }
    };
    let js: &str = if text_eq(format, "html") {
        PAGE_HTML
    } else if text_eq(format, "title") {
        PAGE_TITLE
    } else {
        PAGE_TEXT
    };
    run(window_id, js, input.timeout_ms, Finish::Content)
}

/// Whether `r` is the plan that clicks: at a point where both coordinates are
/// given, else on the element that the selector or the text finds.
pub open spec fn is_click_plan(
    r: Result<HwatuPlan, ActionError>,
    input: BrowserInput,
    window_id: Option<i64>,
) -> bool {
    if input.selector is None && input.text is None && input.x is None {
        refuses(r, "click requires selector, text, or x/y coordinates"@)
    } else if input.x is Some && input.y is Some {
        runs(
            r,
            window_id,
            hwatu_scripts::click_point_script(input.x->0@, input.y->0@),
            input.timeout_ms,
            Finish::ShowValue,
        )
    } else {
        runs(
            r,
            window_id,
            hwatu_scripts::click_script(
                quoted(text::opt_view(input.selector)),
                quoted(text::opt_view(input.text)),
            ),
            input.timeout_ms,
            Finish::ShowValue,
        )
    }
}

/// Clicks.
pub fn plan_click(input: &BrowserInput, window_id: Option<i64>) -> (r: Result<
    HwatuPlan,
    ActionError,
>)
    ensures
        is_click_plan(r, *input, window_id),
{
    if input.selector.is_none() && input.text.is_none() && input.x.is_none() {
        return invalid("click requires selector, text, or x/y coordinates");
    }
    let js: String = match (&input.x, &input.y) {
        (Some(x), Some(y)) => click_point_js(x.as_str(), y.as_str()),
        _ => {
            let selector: String = match quote_opt(borrowed(&input.selector)) {
                Ok(q) => q,
                Err(e) => {
                    return Err(ActionError::Json(e));
                },
            };
            let text: String = match quote_opt(borrowed(&input.text)) {
                Ok(q) => q,
                Err(e) => {
                    return Err(ActionError::Json(e));
                },
            };
            click_js(selector.as_str(), text.as_str())
        },
    };
    run(window_id, js.as_str(), input.timeout_ms, Finish::ShowValue)
}

/// A truth value in JSON notation.
pub open spec fn bool_word(b: bool) -> Seq<char> {
    if b {
        "true"@
    } else {
        "false"@
    }
}

fn bool_text(b: bool) -> (r: &'static str)
    ensures
        r@ == bool_word(b),
{
    if b {
        "true"
    } else {
        "false"
    }
}

/// Whether `r` is the plan that types a text.
pub open spec fn is_type_plan(
    r: Result<HwatuPlan, ActionError>,
    input: BrowserInput,
    window_id: Option<i64>,
) -> bool {
    match input.text {
        None => refuses(r, "text is required for type"@),
        Some(t) => runs(
            r,
            window_id,
            hwatu_scripts::type_script(
                quoted(text::opt_view(input.selector)),
                bool_word(is_on(input.clear)),
                json::json_quoted(t@),
                bool_word(is_on(input.submit)),
            ),
            input.timeout_ms,
            Finish::ShowValue,
        ),
    }
}

/// Types a text into an element, or into the one that has the focus.
pub fn plan_type(input: &BrowserInput, window_id: Option<i64>) -> (r: Result<
    HwatuPlan,
    ActionError,
>)
    ensures
        is_type_plan(r, *input, window_id),
{
    let text: &str = match &input.text {
        Some(t) => t.as_str(),
        None => {
            return invalid("text is required for type");
        },
    };
    let selector: String = match quote_opt(borrowed(&input.selector)) {
        Ok(q) => q,
        Err(e) => {
            return Err(ActionError::Json(e));
        },
    };
    let text: String = match quote_text(text) {
        Ok(q) => q,
        Err(e) => {
            return Err(ActionError::Json(e));
        },
    };
    let js: String = type_js(
        selector.as_str(),
        bool_text(on(input.clear)),
        text.as_str(),
        bool_text(on(input.submit)),
    );
    run(window_id, js.as_str(), input.timeout_ms, Finish::ShowValue)
}

/// A text or the null value.
pub open spec fn text_or_null(s: Option<String>) -> json::JsonView {
    match s {
        Some(s) => json::JsonView::Text(s@),
        None => json::JsonView::Null,
    }
}

/// A truth value or the null value.
pub open spec fn bool_or_null(b: Option<bool>) -> json::JsonView {
    match b {
        Some(b) => json::JsonView::Bool(b),
        None => json::JsonView::Null,
    }
}

/// A form field as the script takes it.
pub open spec fn field_fields(f: FormField) -> Map<Seq<char>, json::JsonView> {
    Map::<Seq<char>, json::JsonView>::empty().insert(
        "selector"@,
        json::JsonView::Text(f.selector@),
    ).insert("value"@, text_or_null(f.value)).insert("checked"@, bool_or_null(f.checked))
}

/// Whether a document is the array of the given form fields.
pub open spec fn is_field_array(v: Value, fields: Seq<FormField>) -> bool {
    match json::json_view(v) {
        json::JsonView::Array(items) => {
            &&& items.len() == fields.len()
            &&& forall|i: int|
                0 <= i < items.len() ==> json::object_fields(#[trigger] items[i]) == field_fields(
                    fields[i],
                )
        },
        _ => false,
    }
}

/// Whether `r` is the plan that fills in the fields of the array `v`.
pub open spec fn fills(
    r: Result<HwatuPlan, ActionError>,
    v: Value,
    window_id: Option<i64>,
    timeout_ms: Option<u64>,
) -> bool {
    runs(
        r,
        window_id,
        hwatu_scripts::fill_script(json::json_compact(v)),
        timeout_ms,
        Finish::ShowValue,
    )
}

/// Whether `r` is the plan that fills in a form.
pub open spec fn is_fill_form_plan(
    r: Result<HwatuPlan, ActionError>,
    input: BrowserInput,
    window_id: Option<i64>,
) -> bool {
    match input.fields {
        None => refuses(r, "fields are required for fill_form"@),
        Some(fields) => exists|v: Value| #[trigger]
            is_field_array(v, fields@) && fills(r, v, window_id, input.timeout_ms),
    }
}

fn field_value(f: &FormField) -> (r: Value)
    ensures
        json::object_fields(r) == field_fields(*f),
{
    let mut b: ObjectBuilder = ObjectBuilder::new();
    b.set_text("selector", f.selector.as_str());
    let value: Value = match &f.value {
        Some(s) => text_value(s.as_str()),
        None => null_value(),
    };
    b.set("value", value);
    let checked: Value = match f.checked {
        Some(c) => bool_value(c),
        None => null_value(),
    };
    b.set("checked", checked);
    b.build()
}

fn fill(v: Value, window_id: Option<i64>, timeout_ms: Option<u64>) -> (r: Result<
    HwatuPlan,
    ActionError,
>)
    ensures
        fills(r, v, window_id, timeout_ms),
{
    match compact_json(&v) {
        Ok(fields) => run(window_id, fill_js(fields.as_str()).as_str(), timeout_ms, Finish::ShowValue),
        Err(e) => Err(ActionError::Json(e)),
    }
}

/// Fills in a form.
pub fn plan_fill_form(input: &BrowserInput, window_id: Option<i64>) -> (r: Result<
    HwatuPlan,
    ActionError,
>)
    ensures
        is_fill_form_plan(r, *input, window_id),
{
    let fields: &Vec<FormField> = match &input.fields {
        Some(f) => f,
        None => {
            return invalid("fields are required for fill_form");
        },
    };
    let mut items: Vec<Value> = Vec::new();
    let mut i: usize = 0;
    while i < fields.len()
        invariant
            i <= fields@.len(),
            items@.len() == i,
            forall|k: int|
                0 <= k < i ==> json::object_fields(#[trigger] items@[k]) == field_fields(fields@[k]),
        decreases fields@.len() - i,
    {
        items.push(field_value(&fields[i]));
        i += 1;
    }
    let v: Value = array_value(items);
    assert(is_field_array(v, fields@));
    fill(v, window_id, input.timeout_ms)
}

/// Whether a document is the array of the one field that a choice sets.
pub open spec fn is_choice_array(v: Value, selector: Seq<char>, value: Seq<char>) -> bool {
    match json::json_view(v) {
        json::JsonView::Array(items) => {
            &&& items.len() == 1
            &&& json::object_fields(items[0]) == Map::<Seq<char>, json::JsonView>::empty().insert(
                "selector"@,
                json::JsonView::Text(selector),
            ).insert("value"@, json::JsonView::Text(value))
        },
        _ => false,
    }
}

/// Whether `r` is the plan that chooses an option.
pub open spec fn is_select_plan(
    r: Result<HwatuPlan, ActionError>,
    input: BrowserInput,
    window_id: Option<i64>,
) -> bool {
    match (input.selector, input.text) {
        (None, _) => refuses(r, "selector is required for select"@),
        (Some(_), None) => refuses(r, "text is required for select (used as the option value)"@),
        (Some(selector), Some(text)) => exists|v: Value| #[trigger]
            is_choice_array(v, selector@, text@) && fills(r, v, window_id, input.timeout_ms),
    }
}

/// Chooses an option.
pub fn plan_select(input: &BrowserInput, window_id: Option<i64>) -> (r: Result<
    HwatuPlan,
    ActionError,
>)
    ensures
        is_select_plan(r, *input, window_id),
{
    let selector: &str = match &input.selector {
        Some(s) => s.as_str(),
        None => {
            return invalid("selector is required for select");
        },
    };
    let value: &str = match &input.text {
        Some(s) => s.as_str(),
        None => {
            return invalid("text is required for select (used as the option value)");
        },
    };
    let mut b: ObjectBuilder = ObjectBuilder::new();
    b.set_text("selector", selector);
    b.set_text("value", value);
    let mut items: Vec<Value> = Vec::new();
    items.push(b.build());
    let v: Value = array_value(items);
    assert(is_choice_array(v, selector@, value@));
    fill(v, window_id, input.timeout_ms)
}

/// How long a wait lasts, in milliseconds.
pub open spec fn wait_time(timeout_ms: Option<u64>) -> u64 {
    match timeout_ms {
        Some(t) => t,
        None => 10_000,
    }
}

/// Whether a wait has nothing to wait for.
pub open spec fn waits_for_nothing(input: BrowserInput) -> bool {
    input.selector is None && input.text is None && input.contains is None
}

/// Whether the time that the daemon gets for a wait fits in a `u64`.
pub open spec fn wait_fits(input: BrowserInput) -> bool {
    waits_for_nothing(input) || wait_time(input.timeout_ms) + 2_000 <= u64::MAX
}

/// Whether `r` is the plan that waits for an element or a text. The daemon gets two
/// seconds more than the script.
pub open spec fn is_wait_plan(
    r: Result<HwatuPlan, ActionError>,
    input: BrowserInput,
    window_id: Option<i64>,
) -> bool {
    let needle = if input.contains is Some {
        text::opt_view(input.contains)
    } else {
        text::opt_view(input.text)
    };
    if waits_for_nothing(input) {
        refuses(r, "wait requires selector, text, or contains"@)
    } else {
        runs(
            r,
            window_id,
            hwatu_scripts::wait_script(
                text::decimal(wait_time(input.timeout_ms) as nat),
                quoted(text::opt_view(input.selector)),
                quoted(needle),
            ),
            Some((wait_time(input.timeout_ms) + 2_000) as u64),
            Finish::ShowValue,
        )
    }
}

/// Waits for an element or a text.
pub fn plan_wait(input: &BrowserInput, window_id: Option<i64>) -> (r: Result<
    HwatuPlan,
    ActionError,
>)
    requires
        wait_fits(*input),
    ensures
        is_wait_plan(r, *input, window_id),
{
    if input.selector.is_none() && input.text.is_none() && input.contains.is_none() {
        return invalid("wait requires selector, text, or contains");
    }
    let timeout: u64 = match input.timeout_ms {
        Some(t) => t,
        None => 10_000,
    };
    let selector: String = match quote_opt(borrowed(&input.selector)) {
        Ok(q) => q,
        Err(e) => {
            return Err(ActionError::Json(e));
        },
    };
    let needle: Option<&str> = match &input.contains {
        Some(c) => Some(c.as_str()),
        None => borrowed(&input.text),
    };
    let needle: String = match quote_opt(needle) {
        Ok(q) => q,
        Err(e) => {
            return Err(ActionError::Json(e));
        },
    };
    let js: String = wait_js(decimal_text(timeout).as_str(), selector.as_str(), needle.as_str());
    run(window_id, js.as_str(), Some(timeout + 2_000), Finish::ShowValue)
}

/// The name of the file that an image taken at the given time goes to.
pub open spec fn screenshot_file(since_epoch_ms: Option<u128>) -> Seq<char> {
    "jcode-hwatu-"@ + text::decimal(
        match since_epoch_ms {
            Some(ms) => ms as nat,
            None => 0,
        },
    ) + ".png"@
}

/// The name of the file that an image goes to, from the time in milliseconds since
/// the epoch; nothing stands for a clock before it.
pub fn screenshot_name(since_epoch_ms: Option<u128>) -> (r: String)
    ensures
        r@ == screenshot_file(since_epoch_ms),
{
    let millis: u128 = match since_epoch_ms {
        Some(ms) => ms,
        None => 0,
    };
    let mut out: String = "jcode-hwatu-".to_owned();
    append_decimal(&mut out, millis);
    out.append(".png");
    out
}

/// Whether `r` is the plan that has an image taken into the file `target`.
pub open spec fn is_screenshot_plan(
    r: Result<HwatuPlan, ActionError>,
    window_id: Option<i64>,
    target: Seq<char>,
) -> bool {
    &&& finish_of(r) matches Some(Finish::Screenshot(t)) && t@ == target
    &&& sends(
        r,
        json::with_integer(
            hwatu::command("screenshot"@).insert("path"@, json::JsonView::Text(target)),
            "id"@,
            hwatu::opt_i64(window_id),
        ),
    )
}

/// Has an image of the window taken.
pub fn plan_screenshot(window_id: Option<i64>, target: &str) -> (r: Result<HwatuPlan, ActionError>)
    ensures
        is_screenshot_plan(r, window_id, target@),
{
    let mut b: ObjectBuilder = ObjectBuilder::new();
    b.set_text("cmd", "screenshot");
    b.set_text("path", target);
    b.set_i64("id", window_id);
    Ok(HwatuPlan::Send { request: b.build(), finish: Finish::Screenshot(target.to_owned()) })
}

/// A number in decimal notation, or zero.
pub open spec fn or_zero(n: Option<String>) -> Seq<char> {
    match n {
        Some(n) => n@,
        None => "0"@,
    }
}

fn number_or_zero(n: &Option<String>) -> (r: String)
    ensures
        r@ == or_zero(*n),
{
    match n {
        Some(n) => n.clone(),
        None => "0".to_owned(),
    }
}

/// Whether `r` is the plan that scrolls. A named position comes first, then a
/// selector, a target position, and a distance.
pub open spec fn is_scroll_plan(
    r: Result<HwatuPlan, ActionError>,
    input: BrowserInput,
    window_id: Option<i64>,
) -> bool {
    if input.position is Some {
        if input.position->0@ == "top"@ {
            runs(
                r,
                window_id,
                hwatu_scripts::scroll_top_script(),
                input.timeout_ms,
                Finish::ShowValue,
            )
        } else if input.position->0@ == "bottom"@ {
            runs(
                r,
                window_id,
                hwatu_scripts::scroll_bottom_script(),
                input.timeout_ms,
                Finish::ShowValue,
            )
        } else {
            refuses(r, "unsupported scroll position: "@ + input.position->0@)
        }
    } else if input.selector is Some {
        runs(
            r,
            window_id,
            hwatu_scripts::scroll_match_script(
                json::json_quoted(input.selector->0@),
                quoted(text::opt_view(input.contains)),
            ),
            input.timeout_ms,
            Finish::ShowValue,
        )
    } else if input.scroll_to is Some {
        runs(
            r,
            window_id,
            hwatu_scripts::scroll_to_script(
                or_zero(input.scroll_to->0.x),
                or_zero(input.scroll_to->0.y),
            ),
            input.timeout_ms,
            Finish::ShowValue,
        )
    } else if input.x is Some || input.y is Some {
        runs(
            r,
            window_id,
            hwatu_scripts::scroll_by_script(or_zero(input.x), or_zero(input.y)),
            input.timeout_ms,
            Finish::ShowValue,
        )
    } else {
        refuses(r, "scroll requires x/y, selector, position, or scroll_to"@)
    }
}

/// Scrolls.
pub fn plan_scroll(input: &BrowserInput, window_id: Option<i64>) -> (r: Result<
    HwatuPlan,
    ActionError,
>)
    ensures
        is_scroll_plan(r, *input, window_id),
{
    let js: String = if let Some(position) = &input.position {
        if text_eq(position.as_str(), "top") {
            scroll_top_js()
        } else if text_eq(position.as_str(), "bottom") {
            scroll_bottom_js()
        } else {
            return invalid(
                "unsupported scroll position: ".to_owned().concat(position.as_str()).as_str(),
            );
        }
    } else if let Some(selector) = &input.selector {
        let selector: String = match quote_text(selector.as_str()) {
            Ok(q) => q,
            Err(e) => {
                return Err(ActionError::Json(e));
            },
        };
        let contains: String = match quote_opt(borrowed(&input.contains)) {
            Ok(q) => q,
            Err(e) => {
                return Err(ActionError::Json(e));
            },
        };
        scroll_match_js(selector.as_str(), contains.as_str())
    } else if let Some(to) = &input.scroll_to {
        scroll_to_js(number_or_zero(&to.x).as_str(), number_or_zero(&to.y).as_str())
    } else if input.x.is_some() || input.y.is_some() {
        scroll_by_js(number_or_zero(&input.x).as_str(), number_or_zero(&input.y).as_str())
    } else {
        return invalid("scroll requires x/y, selector, position, or scroll_to");
    };
    run(window_id, js.as_str(), input.timeout_ms, Finish::ShowValue)
}

/// Whether `r` is the plan that runs the caller's own script.
pub open spec fn is_eval_plan(
    r: Result<HwatuPlan, ActionError>,
    input: BrowserInput,
    window_id: Option<i64>,
) -> bool {
    match input.script {
        Some(script) => runs(r, window_id, script@, input.timeout_ms, Finish::Eval),
        None => refuses(r, "script is required for eval"@),
    }
}

/// Runs the caller's own script.
pub fn plan_eval(input: &BrowserInput, window_id: Option<i64>) -> (r: Result<
    HwatuPlan,
    ActionError,
>)
    ensures
        is_eval_plan(r, *input, window_id),
{
    match &input.script {
        Some(script) => run(window_id, script.as_str(), input.timeout_ms, Finish::Eval),
        None => invalid("script is required for eval"),
    }
}

/// Whether `r` is the plan that passes a command on to the daemon: the parameters,
/// if they are an object, with the command set.
pub open spec fn is_provider_plan(r: Result<HwatuPlan, ActionError>, input: BrowserInput) -> bool {
    match input.provider_action {
        None => refuses(r, "provider_action is required when action='provider_command'"@),
        Some(cmd) => {
            let params = match input.params {
                Some(v) => json::members_in(v),
                None => json::no_members(),
            };
            &&& finish_of(r) == Some(Finish::Response)
            &&& r matches Ok(HwatuPlan::Send { request, .. }) && json::json_view(request) is Object
                && json::members_in(request).remove("cmd"@) == params.remove("cmd"@)
                && json::member_text(request, "cmd"@) == Some(cmd@)
        },
    }
}

/// Passes a command on to the daemon.
pub fn plan_provider_command(input: &BrowserInput) -> (r: Result<HwatuPlan, ActionError>)
    ensures
        is_provider_plan(r, *input),
{
    let cmd: &str = match &input.provider_action {
        Some(c) => c.as_str(),
        None => {
            return invalid("provider_action is required when action='provider_command'");
        },
    };
    let mut b: ObjectBuilder = match &input.params {
        Some(v) => ObjectBuilder::from_value(v),
        None => ObjectBuilder::new(),
    };
    let ghost params = b.members();
    b.set("cmd", text_value(cmd));
    let request: Value = b.build();
    assert(json::members_in(request).remove("cmd"@) == params.remove("cmd"@));
    Ok(HwatuPlan::Send { request, finish: Finish::Response })
}

/// Whether `r` is the plan that uploads a file.
pub open spec fn is_upload_plan(
    r: Result<HwatuPlan, ActionError>,
    input: BrowserInput,
    window_id: Option<i64>,
) -> bool {
    match input.path {
        None => refuses(r, "path is required for upload"@),
        Some(path) => {
            let selector = match input.selector {
                Some(s) => s@,
                None => "input[type=file]"@,
            };
            &&& finish_of(r) == Some(Finish::ShowValue)
            &&& sends(
                r,
                json::with_integer(
                    json::with_integer(
                        hwatu::command("upload"@).insert(
                            "selector"@,
                            json::JsonView::Text(selector),
                        ).insert("path"@, json::JsonView::Text(path@)),
                        "id"@,
                        hwatu::opt_i64(window_id),
                    ),
                    "timeout_ms"@,
                    hwatu::opt_u64(input.timeout_ms),
                ),
            )
        },
    }
}

/// Uploads a file.
pub fn plan_upload(input: &BrowserInput, window_id: Option<i64>) -> (r: Result<
    HwatuPlan,
    ActionError,
>)
    ensures
        is_upload_plan(r, *input, window_id),
{
    let path: &str = match &input.path {
        Some(p) => p.as_str(),
        None => {
            return invalid("path is required for upload");
        },
    };
    let selector: &str = match &input.selector {
        Some(s) => s.as_str(),
        None => "input[type=file]",
    };
    let mut b: ObjectBuilder = ObjectBuilder::new();
    b.set_text("cmd", "upload");
    b.set_text("selector", selector);
    b.set_text("path", path);
    b.set_i64("id", window_id);
    b.set_u64("timeout_ms", input.timeout_ms);
    Ok(HwatuPlan::Send { request: b.build(), finish: Finish::ShowValue })
}

/// The plan that runs a script that presses a key.
pub fn plan_press_script(script: &str, input: &BrowserInput, window_id: Option<i64>) -> (r: Result<
    HwatuPlan,
    ActionError,
>)
    ensures
        runs(r, window_id, script@, input.timeout_ms, Finish::ShowValue),
{
    run(window_id, script, input.timeout_ms, Finish::ShowValue)
}

/// Whether `r` is the plan for an action.
pub open spec fn is_action_plan(
    r: Result<HwatuPlan, ActionError>,
    action: Seq<char>,
    input: BrowserInput,
    window_id: Option<i64>,
    mode: Seq<char>,
    screenshot_target: Seq<char>,
) -> bool {
    if action == "open"@ {
        is_open_plan(r, input, window_id, mode)
    } else if action == "list_tabs"@ {
        sends(r, hwatu::command("list"@)) && finish_of(r) == Some(Finish::ListTabs)
    } else if action == "get_active_tab"@ {
        sends(r, hwatu::command("list"@)) && finish_of(r) == Some(Finish::ActiveTab)
    } else if action == "new_tab"@ {
        is_new_tab_plan(r, input, mode)
    } else if action == "select_tab"@ {
        is_select_tab_plan(r, input)
    } else if action == "snapshot"@ {
        is_content_plan(r, input, window_id, true)
    } else if action == "get_content"@ {
        is_content_plan(r, input, window_id, false)
    } else if action == "interactables"@ {
        runs(
            r,
            window_id,
            hwatu_scripts::interactables_script(),
            input.timeout_ms,
            Finish::Interactables,
        )
    } else if action == "click"@ {
        is_click_plan(r, input, window_id)
    } else if action == "type"@ {
        is_type_plan(r, input, window_id)
    } else if action == "fill_form"@ {
        is_fill_form_plan(r, input, window_id)
    } else if action == "select"@ {
        is_select_plan(r, input, window_id)
    } else if action == "wait"@ {
        is_wait_plan(r, input, window_id)
    } else if action == "screenshot"@ {
        is_screenshot_plan(r, window_id, screenshot_target)
    } else if action == "eval"@ {
        is_eval_plan(r, input, window_id)
    } else if action == "scroll"@ {
        is_scroll_plan(r, input, window_id)
    } else if action == "press"@ {
        r == Ok::<HwatuPlan, ActionError>(
            HwatuPlan::Press { key: input.key, selector: input.selector },
        )
    } else if action == "list_frames"@ {
        runs(r, window_id, LIST_FRAMES@, input.timeout_ms, Finish::ShowValue)
    } else if action == "provider_command"@ {
        is_provider_plan(r, input)
    } else if action == "upload"@ {
        is_upload_plan(r, input, window_id)
    } else {
        refuses(r, "Unsupported browser action for hwatu backend: "@ + action)
    }
}

/// How an action is carried out on the window that the session addresses.
/// `preference` is the preferred mode of new windows, and `screenshot_target` the
/// file that an image goes to.
pub fn plan_hwatu_action(
    action: &str,
    input: &BrowserInput,
    window_id: Option<i64>,
    preference: Option<&str>,
    screenshot_target: &str,
) -> (r: Result<HwatuPlan, ActionError>)
    requires
        action@ == "wait"@ ==> wait_fits(*input),
    ensures
        is_action_plan(
            r,
            action@,
            *input,
            window_id,
            mode_of(input.focus, text::opt_str_view(preference)),
            screenshot_target@,
        ),
{
    let mode: &'static str = open_mode(input.focus, preference);
    if text_eq(action, "open") {
        plan_open(input, window_id, mode)
    } else if text_eq(action, "list_tabs") {
        Ok(HwatuPlan::Send { request: list_request(), finish: Finish::ListTabs })
    } else if text_eq(action, "get_active_tab") {
        Ok(HwatuPlan::Send { request: list_request(), finish: Finish::ActiveTab })
    } else if text_eq(action, "new_tab") {
        plan_new_tab(input, mode)
    } else if text_eq(action, "select_tab") {
        plan_select_tab(input)
    } else if text_eq(action, "snapshot") {
        plan_content(input, window_id, true)
    } else if text_eq(action, "get_content") {
        plan_content(input, window_id, false)
    } else if text_eq(action, "interactables") {
        run(window_id, interactables_js().as_str(), input.timeout_ms, Finish::Interactables)
    } else if text_eq(action, "click") {
        plan_click(input, window_id)
    } else if text_eq(action, "type") {
        plan_type(input, window_id)
    } else if text_eq(action, "fill_form") {
        plan_fill_form(input, window_id)
    } else if text_eq(action, "select") {
        plan_select(input, window_id)
    } else if text_eq(action, "wait") {
        plan_wait(input, window_id)
    } else if text_eq(action, "screenshot") {
        plan_screenshot(window_id, screenshot_target)
    } else if text_eq(action, "eval") {
        plan_eval(input, window_id)
    } else if text_eq(action, "scroll") {
        plan_scroll(input, window_id)
    } else if text_eq(action, "press") {
        Ok(
            HwatuPlan::Press { key: clone_opt(&input.key), selector: clone_opt(&input.selector) },
        )
    } else if text_eq(action, "list_frames") {
        run(window_id, LIST_FRAMES, input.timeout_ms, Finish::ShowValue)
    } else if text_eq(action, "provider_command") {
        plan_provider_command(input)
    } else if text_eq(action, "upload") {
        plan_upload(input, window_id)
    } else {
        invalid(
            "Unsupported browser action for hwatu backend: ".to_owned().concat(action).as_str(),
        )
    }
}

// ---------------------------------------------------------------------------
// Responses
// ---------------------------------------------------------------------------

/// What a response leads to.
#[derive(Debug)]
pub enum Outcome {
    /// The output.
    Output(ToolOutput),
    /// The value is to be written out as a list of elements.
    FormatInteractables { value: Value },
    /// The image is to be read from this path: the one that the response names, or else
    /// the target of the request.
    ReadImage { saved: String, is_named: bool, response: Value },
}

/// Whether an output has the given text and title, and no image.
pub open spec fn shows(o: ToolOutput, text: Seq<char>, title: Seq<char>) -> bool {
    o.text@ == text && o.title@ == title && o.image is None
}

/// Whether the metadata of an output is the list of windows.
pub open spec fn lists(o: ToolOutput, windows: Seq<Value>) -> bool {
    o.metadata matches Some(m) && json::object_fields(m) == Map::<
        Seq<char>,
        json::JsonView,
    >::empty().insert("windows"@, json::JsonView::Array(windows))
}

/// The number of a window, or zero.
pub open spec fn window_number(w: Value) -> nat {
    match json::member(w, "id"@) {
        Some(id) => match json::integer_in(id, 0, u64::MAX as int) {
            Some(n) => n as nat,
            None => 0,
        },
        None => 0,
    }
}

/// The text of a member, or nothing.
pub open spec fn text_or_empty(v: Value, key: Seq<char>) -> Seq<char> {
    match json::member_text(v, key) {
        Some(s) => s,
        None => Seq::empty(),
    }
}

/// The line that lists a window.
pub open spec fn window_line(w: Value) -> Seq<char> {
    text::decimal(window_number(w)) + ". "@ + text_or_empty(w, "title"@) + " "@ + text_or_empty(
        w,
        "url"@,
    ) + " "@ + (if json::member_is_true(w, "focused"@) {
        "[focused]"@
    } else {
        Seq::empty()
    }) + (if json::member_is_true(w, "suspended"@) {
        "[suspended]"@
    } else {
        Seq::empty()
    })
}

fn text_member(v: &Value, key: &str) -> (r: String)
    ensures
        r@ == text_or_empty(*v, key@),
{
    match get_text(v, key) {
        Some(s) => s,
        None => String::new(),
    }
}

fn line_for(w: &Value) -> (r: String)
    ensures
        r@ == window_line(*w),
{
    let number: u64 = match get_member(w, "id") {
        Some(id) => match id.as_u64() {
            Some(n) => n,
            None => 0,
        },
        None => 0,
    };
    let mut out: String = decimal_text(number);
    out.append(". ");
    out.append(text_member(w, "title").as_str());
    out.append(" ");
    out.append(text_member(w, "url").as_str());
    out.append(" ");
    if is_true(w, "focused") {
        out.append("[focused]");
    }
    if is_true(w, "suspended") {
        out.append("[suspended]");
    }
    assert(out@ == window_line(*w));
    out
}

/// The list of windows as it is shown.
pub open spec fn window_listing(windows: Seq<Value>) -> Seq<char> {
    if windows.len() == 0 {
        "No windows open. hwatu windows double as tabs (the WM tiles them)."@
    } else {
        text::joined(windows.map_values(|w: Value| window_line(w)), "\n"@)
    }
}

fn listing(windows: &Vec<Value>) -> (r: String)
    ensures
        r@ == window_listing(windows@),
{
    if windows.len() == 0 {
        return "No windows open. hwatu windows double as tabs (the WM tiles them).".to_owned();
    }
    let mut lines: Vec<String> = Vec::new();
    let mut i: usize = 0;
    while i < windows.len()
        invariant
            i <= windows@.len(),
            lines@.len() == i,
            forall|k: int| 0 <= k < i ==> (#[trigger] lines@[k])@ == window_line(windows@[k]),
        decreases windows@.len() - i,
    {
        lines.push(line_for(&windows[i]));
        i += 1;
    }
    assert(text::views(lines@) == windows@.map_values(|w: Value| window_line(w)));
    join_texts(&lines, "\n")
}

/// The index of the first focused window, or the number of windows if none is.
pub open spec fn first_focused(windows: Seq<Value>) -> int
    decreases windows.len(),
{
    if windows.len() == 0 || json::member_is_true(windows[0], "focused"@) {
        0
    } else {
        1 + first_focused(windows.skip(1))
    }
}

/// The focused window, or else the first one.
pub open spec fn active_window(windows: Seq<Value>) -> Option<Value> {
    let i = first_focused(windows);
    if windows.len() == 0 {
        None
    } else if 0 <= i < windows.len() {
        Some(windows[i])
    } else {
        Some(windows[0])
    }
}

fn active(windows: &Vec<Value>) -> (r: Option<&Value>)
    ensures
        match r {
            Some(w) => active_window(windows@) == Some(*w),
            None => active_window(windows@) is None,
        },
{
    let mut i: usize = 0;
    assert(windows@.skip(0) == windows@);
    while i < windows.len()
        invariant
            i <= windows@.len(),
            first_focused(windows@) == i + first_focused(windows@.skip(i as int)),
        decreases windows@.len() - i,
    {
        assert(windows@.skip(i as int)[0] == windows@[i as int]);
        if is_true(&windows[i], "focused") {
            return Some(&windows[i]);
        }
        assert(windows@.skip(i as int).skip(1) == windows@.skip(i + 1));
        i += 1;
    }
    if windows.len() > 0 {
        Some(&windows[0])
    } else {
        None
    }
}

fn windows_metadata(windows: Vec<Value>) -> (r: Value)
    ensures
        json::object_fields(r) == Map::<Seq<char>, json::JsonView>::empty().insert(
            "windows"@,
            json::JsonView::Array(windows@),
        ),
{
    let mut b: ObjectBuilder = ObjectBuilder::new();
    b.set("windows", array_value(windows));
    b.build()
}

/// Whether a document is shown indented, and kept as metadata.
pub open spec fn shows_document(
    r: Result<Outcome, serde_json::Error>,
    v: Value,
    title: Seq<char>,
) -> bool {
    r matches Ok(Outcome::Output(o)) && shows(o, json::json_pretty(v), title) && o.metadata == Some(
        v,
    )
}

fn show_document(v: Value, action: &str) -> (r: Result<Outcome, serde_json::Error>)
    ensures
        shows_document(r, v, title_of(action@)),
{
    match pretty_json(&v) {
        Ok(text) => Ok(
            Outcome::Output(
                ToolOutput { text, title: window_title(action), metadata: Some(v), image: None },
            ),
        ),
        Err(e) => Err(e),
    }
}

/// Whether `r` is what a response is turned into.
pub open spec fn is_finished(
    r: Result<Outcome, serde_json::Error>,
    finish: Finish,
    action: Seq<char>,
    response: Value,
) -> bool {
    let title = title_of(action);
    let windows = hwatu::listed_windows(response);
    match finish {
        Finish::Opened(url) => r matches Ok(Outcome::Output(o)) && shows(
            o,
            "Opened "@ + url@,
            title,
        ) && o.metadata is Some && hwatu::is_member_or_null(o.metadata->0, response, "window"@),
        Finish::ListTabs => r matches Ok(Outcome::Output(o)) && shows(
            o,
            window_listing(windows),
            title,
        ) && lists(o, windows),
        Finish::ActiveTab => match active_window(windows) {
            None => r matches Ok(Outcome::Output(o)) && shows(o, "No windows open."@, title)
                && lists(o, windows),
            Some(w) => r matches Ok(Outcome::Output(o)) && shows(
                o,
                json::json_pretty(w),
                title,
            ) && lists(o, windows),
        },
        Finish::NewTab => exists|v: Value| #[trigger]
            hwatu::is_member_or_null(v, response, "window"@) && shows_document(r, v, title),
        Finish::Focused(id) => r matches Ok(Outcome::Output(o)) && shows(
            o,
            "Focused window "@ + text::decimal_int(id as int),
            title,
        ) && o.metadata is None,
        Finish::Content => r matches Ok(Outcome::Output(o)) && shows(
            o,
            text_or_empty(response, "value"@),
            title,
        ) && o.metadata is None,
        Finish::Interactables => r matches Ok(Outcome::FormatInteractables { value })
            && hwatu::is_member_or_null(value, response, "value"@),
        Finish::ShowValue => exists|v: Value| #[trigger]
            hwatu::is_member_or_null(v, response, "value"@) && shows_document(r, v, title),
        Finish::Eval => exists|v: Value| #[trigger]
            hwatu::is_member_or_null(v, response, "value"@) && shows_result(r, v, title),
        Finish::Screenshot(target) => r matches Ok(
            Outcome::ReadImage { saved, is_named, response: kept },
        ) && kept == response && is_named == (json::member_text(response, "path"@) is Some) && saved@
            == (match json::member_text(response, "path"@) {
            Some(path) => path,
            None => target@,
        }),
        Finish::Response => shows_document(r, response, title),
    }
}

/// Whether the value of the caller's own script is shown: a text as it is, any
/// other value indented.
pub open spec fn shows_result(
    r: Result<Outcome, serde_json::Error>,
    v: Value,
    title: Seq<char>,
) -> bool {
    r matches Ok(Outcome::Output(o)) && shows(
        o,
        match json::text_in(v) {
            Some(text) => text,
            None => json::json_pretty(v),
        },
        title,
    ) && o.metadata is Some && json::json_view(o.metadata->0) == json::JsonView::Object(
        json::no_members().insert("result"@, v),
    )
}

fn show_result(v: Value, action: &str) -> (r: Result<Outcome, serde_json::Error>)
    ensures
        shows_result(r, v, title_of(action@)),
{
    let own: Option<String> = match v.as_str() {
        Some(s) => Some(s.to_owned()),
        None => None,
    };
    let text: String = match own {
        Some(s) => s,
        None => match pretty_json(&v) {
            Ok(s) => s,
            Err(e) => {
                return Err(e);
            },
        },
    };
    let mut b: ObjectBuilder = ObjectBuilder::new();
    b.set("result", v);
    Ok(
        Outcome::Output(
            ToolOutput {
                text,
                title: window_title(action),
                metadata: Some(b.build()),
                image: None,
            },
        ),
    )
}

/// The window of a session after a response: the one that was opened or navigated, if
/// the response names it.
pub open spec fn window_after(own: i64, finish: Finish, response: Value) -> int {
    match hwatu::response_window(response) {
        Some(id) if finish is Opened || finish is NewTab => id,
        _ => own as int,
    }
}

/// Turns a response into what the action shows. A window that was opened or
/// navigated becomes the session's window.
pub fn finish_hwatu_action(
    finish: Finish,
    action: &str,
    response: Value,
    session: &mut SessionWindow,
) -> (r: Result<Outcome, serde_json::Error>)
    ensures
        is_finished(r, finish, action@, response),
        final(session).id == window_after(old(session).id, finish, response),
{
    match finish {
        Finish::Opened(url) => {
            session.remember_window(&response);
            Ok(
                Outcome::Output(
                    ToolOutput {
                        text: "Opened ".to_owned().concat(url.as_str()),
                        title: window_title(action),
                        metadata: Some(member_or_null(&response, "window")),
                        image: None,
                    },
                ),
            )
        },
        Finish::ListTabs => {
            let windows: Vec<Value> = list_windows(&response);
            let text: String = listing(&windows);
            Ok(
                Outcome::Output(
                    ToolOutput {
                        text,
                        title: window_title(action),
                        metadata: Some(windows_metadata(windows)),
                        image: None,
                    },
                ),
            )
        },
        Finish::ActiveTab => {
            let windows: Vec<Value> = list_windows(&response);
            let text: String = match active(&windows) {
                Some(w) => match pretty_json(w) {
                    Ok(s) => s,
                    Err(e) => {
                        return Err(e);
                    },
                },
                None => "No windows open.".to_owned(),
            };
            Ok(
                Outcome::Output(
                    ToolOutput {
                        text,
                        title: window_title(action),
                        metadata: Some(windows_metadata(windows)),
                        image: None,
                    },
                ),
            )
        },
        Finish::NewTab => {
            session.remember_window(&response);
            let window: Value = member_or_null(&response, "window");
            show_document(window, action)
        },
        Finish::Focused(id) => {
            Ok(
                Outcome::Output(
                    ToolOutput {
                        text: "Focused window ".to_owned().concat(decimal_int_text(id).as_str()),
                        title: window_title(action),
                        metadata: None,
                        image: None,
                    },
                ),
            )
        },
        Finish::Content => {
            Ok(
                Outcome::Output(
                    ToolOutput {
                        text: text_member(&response, "value"),
                        title: window_title(action),
                        metadata: None,
                        image: None,
                    },
                ),
            )
        },
        Finish::Interactables => Ok(
            Outcome::FormatInteractables { value: member_or_null(&response, "value") },
        ),
        Finish::ShowValue => {
            let value: Value = member_or_null(&response, "value");
            show_document(value, action)
        },
        Finish::Eval => {
            let value: Value = member_or_null(&response, "value");
            show_result(value, action)
        },
        Finish::Screenshot(target) => {
            match get_text(&response, "path") {
                Some(path) => Ok(Outcome::ReadImage { saved: path, is_named: true, response }),
                None => Ok(Outcome::ReadImage { saved: target, is_named: false, response }),
            }
        },
        Finish::Response => show_document(response, action),
    }
}

/// The output of an action that lists elements, given the list as it is written
/// out.
pub fn finish_interactables(formatted: String, value: Value, action: &str) -> (r: ToolOutput)
    ensures
        shows(r, formatted@, title_of(action@)),
        r.metadata == Some(value),
{
    ToolOutput { text: formatted, title: window_title(action), metadata: Some(value), image: None }
}

/// The base64 character of a six-bit number.
pub open spec fn base64_char(n: int) -> char {
    if n < 26 {
        (65 + n) as char
    } else if n < 52 {
        (71 + n) as char
    } else if n < 62 {
        (n - 4) as char
    } else if n == 62 {
        '+'
    } else {
        '/'
    }
}

/// Bytes in base64 with the standard alphabet and padding.
pub open spec fn base64_of(b: Seq<u8>) -> Seq<char>
    decreases b.len(),
{
    if b.len() == 0 {
        Seq::empty()
    } else if b.len() == 1 {
        seq![base64_char(b[0] as int / 4), base64_char(b[0] as int % 4 * 16), '=', '=']
    } else if b.len() == 2 {
        seq![
            base64_char(b[0] as int / 4),
            base64_char(b[0] as int % 4 * 16 + b[1] as int / 16),
            base64_char(b[1] as int % 16 * 4),
            '=',
        ]
    } else {
        seq![
            base64_char(b[0] as int / 4),
            base64_char(b[0] as int % 4 * 16 + b[1] as int / 16),
            base64_char(b[1] as int % 16 * 4 + b[2] as int / 64),
            base64_char(b[2] as int % 64),
        ] + base64_of(b.skip(3))
    }
}

/// Whether the base64 form of so many bytes has a length that fits in a `usize`.
pub open spec fn base64_fits(n: nat) -> bool {
    (n + 2) / 3 * 4 <= usize::MAX
}

/// `Engine::encode` of base64's `STANDARD` engine: the bytes in base64, with the
/// standard alphabet and padding. It panics where the length overflows.
#[verifier::external_body]
pub(crate) fn encode_base64(bytes: &Vec<u8>) -> (r: String)
    requires
        base64_fits(bytes@.len()),
    ensures
        r@ == base64_of(bytes@),
{
    base64::Engine::encode(&base64::engine::general_purpose::STANDARD, bytes)
}

/// The output of an action that took an image. `bytes` is what the file held, or
/// nothing where it could not be read.
pub fn finish_screenshot(
    saved: &str,
    response: Value,
    bytes: Option<&Vec<u8>>,
    action: &str,
) -> (r: ToolOutput)
    requires
        bytes matches Some(b) ==> base64_fits(b@.len()),
    ensures
        r.text@ == "Captured hwatu screenshot to "@ + saved@ + "."@,
        r.title@ == title_of(action@),
        r.metadata == Some(response),
        match bytes {
            Some(b) => {
                &&& r.image matches Some(image) && image.media_type@ == "image/png"@ && image.data@
                    == base64_of(b@) && image.label@ == "hwatu screenshot: "@ + saved@
            },
            None => r.image is None,
        },
{
    let mut text: String = "Captured hwatu screenshot to ".to_owned();
    text.append(saved);
    text.append(".");
    let image: Option<LabeledImage> = match bytes {
        Some(b) => Some(
            LabeledImage {
                media_type: "image/png".to_owned(),
                data: encode_base64(b),
                label: "hwatu screenshot: ".to_owned().concat(saved),
            },
        ),
        None => None,
    };
    ToolOutput { text, title: window_title(action), metadata: Some(response), image }
}

// ---------------------------------------------------------------------------
// Status and setup
// ---------------------------------------------------------------------------

/// What the status of the browser says.
pub open spec fn status_text(installed: bool, responding: bool) -> Seq<char> {
    if responding {
        "hwatu daemon is running and responding."@
    } else if installed {
        "hwatu is installed but the daemon is not running. Any browser action will auto-start it."@
    } else {
        "hwatu is not installed. Install it from https://github.com/hongnoul/hwatu or use browser='firefox'."@
    }
}

/// The status of the browser.
pub fn status_output(installed: bool, responding: bool) -> (r: ToolOutput)
    ensures
        shows(r, status_text(installed, responding), "browser status"@),
        r.metadata matches Some(m) && json::object_fields(m) == Map::<
            Seq<char>,
            json::JsonView,
        >::empty().insert("backend"@, json::JsonView::Text("hwatu"@)).insert(
            "browser"@,
            json::JsonView::Text("hwatu"@),
        ).insert("binary_installed"@, json::JsonView::Bool(installed)).insert(
            "responding"@,
            json::JsonView::Bool(responding),
        ).insert("ready"@, json::JsonView::Bool(responding)),
{
    let text: &str = if responding {
        "hwatu daemon is running and responding."
    } else if installed {
        "hwatu is installed but the daemon is not running. Any browser action will auto-start it."
    } else {
        "hwatu is not installed. Install it from https://github.com/hongnoul/hwatu or use browser='firefox'."
    };
    let mut b: ObjectBuilder = ObjectBuilder::new();
    b.set_text("backend", "hwatu");
    b.set_text("browser", "hwatu");
    b.set_bool("binary_installed", installed);
    b.set_bool("responding", responding);
    b.set_bool("ready", responding);
    ToolOutput {
        text: text.to_owned(),
        title: "browser status".to_owned(),
        metadata: Some(b.build()),
        image: None,
    }
}

/// What the attempt to set the browser up came to. `failure` says why it failed.
pub fn setup_output(failure: Option<&str>) -> (r: ToolOutput)
    ensures
        match failure {
            None => shows(
                r,
                "hwatu daemon is running. No further setup needed."@,
                "browser setup"@,
            ),
            Some(why) => shows(r, "hwatu setup failed: "@ + why@, "browser setup (incomplete)"@),
        },
        r.metadata matches Some(m) && json::object_fields(m) == Map::<
            Seq<char>,
            json::JsonView,
        >::empty().insert("ready"@, json::JsonView::Bool(failure is None)).insert(
            "backend"@,
            json::JsonView::Text("hwatu"@),
        ).insert("browser"@, json::JsonView::Text("hwatu"@)),
{
    let mut b: ObjectBuilder = ObjectBuilder::new();
    b.set_bool("ready", failure.is_none());
    b.set_text("backend", "hwatu");
    b.set_text("browser", "hwatu");
    match failure {
        None => ToolOutput {
            text: "hwatu daemon is running. No further setup needed.".to_owned(),
            title: "browser setup".to_owned(),
            metadata: Some(b.build()),
            image: None,
        },
        Some(why) => ToolOutput {
            text: "hwatu setup failed: ".to_owned().concat(why),
            title: "browser setup (incomplete)".to_owned(),
            metadata: Some(b.build()),
            image: None,
        },
    }
}

// ---------------------------------------------------------------------------
// Laws
// ---------------------------------------------------------------------------

/// Whether a request that is sent has the given member.
pub open spec fn sent_with(
    r: Result<HwatuPlan, ActionError>,
    key: Seq<char>,
    value: json::JsonView,
) -> bool {
    r matches Ok(HwatuPlan::Send { request, .. }) && json::object_fields(request).contains_key(key)
        && json::object_fields(request)[key] == value
}

/// Opening an address never takes over a window of another session: without a window
/// of its own the session opens one, and it navigates none but its own, by its id.
pub proof fn opening_spares_other_windows(
    r: Result<HwatuPlan, ActionError>,
    input: BrowserInput,
    window_id: Option<i64>,
    mode: Seq<char>,
)
    requires
        is_open_plan(r, input, window_id, mode),
        input.url is Some,
    ensures
        window_id is None || is_on(input.new_tab) ==> sent_with(
            r,
            "cmd"@,
            json::JsonView::Text("open"@),
        ),
        window_id is Some && !is_on(input.new_tab) ==> sent_with(
            r,
            "cmd"@,
            json::JsonView::Text("navigate"@),
        ) && sent_with(r, "id"@, json::JsonView::Integer(window_id->0 as int)),
{
    reveal_strlit("cmd");
    reveal_strlit("url");
    reveal_strlit("mode");
    reveal_strlit("wait");
    reveal_strlit("id");
    reveal_strlit("timeout_ms");
    assert("cmd"@[0] != "url"@[0]);
    assert("mode"@.len() == 4 && "wait"@.len() == 4 && "timeout_ms"@.len() == 10);
}

/// The window that a session opened last is the one that its next commands address,
/// as long as it is open; no other response changes that.
pub proof fn an_opened_window_is_addressed_next(
    own: i64,
    finish: Finish,
    response: Value,
    id: i64,
    windows: Seq<Value>,
)
    requires
        hwatu::response_window(response) == Some(id as int),
        id != 0,
    ensures
        finish is Opened || finish is NewTab ==> window_after(own, finish, response) == id,
        !(finish is Opened || finish is NewTab) ==> window_after(own, finish, response) == own,
        hwatu::chosen_window(id, None, None) == hwatu::WindowChoice::IfOpen(id),
        hwatu::window_is_open(windows, id as int) ==> hwatu::still_open(id, Some(windows)) == Some(
            id,
        ),
{
}

/// Whether an action acts on a window that is open, and not on the list of windows or
/// on the daemon. A key press is not counted: it is planned in two steps, and its
/// script is sent like any other.
pub open spec fn acts_on_a_window(action: Seq<char>) -> bool {
    ||| action == "snapshot"@
    ||| action == "get_content"@
    ||| action == "interactables"@
    ||| action == "click"@
    ||| action == "type"@
    ||| action == "fill_form"@
    ||| action == "select"@
    ||| action == "wait"@
    ||| action == "screenshot"@
    ||| action == "eval"@
    ||| action == "scroll"@
    ||| action == "list_frames"@
    ||| action == "upload"@
}

/// Sessions that share a daemon keep apart: an action on a window is sent with the id
/// of the window that the session addresses, so the daemon's own last target, which
/// another session may have moved, is never used.
pub proof fn actions_name_the_sessions_window(
    r: Result<HwatuPlan, ActionError>,
    action: Seq<char>,
    input: BrowserInput,
    id: i64,
    mode: Seq<char>,
    screenshot_target: Seq<char>,
)
    requires
        is_action_plan(r, action, input, Some(id), mode, screenshot_target),
        acts_on_a_window(action),
        r is Ok,
    ensures
        sent_with(r, "id"@, json::JsonView::Integer(id as int)),
{
    assert forall|js: Seq<char>, timeout_ms: Option<u64>, finish: Finish| #[trigger]
        runs(r, Some(id), js, timeout_ms, finish) implies sent_with(
        r,
        "id"@,
        json::JsonView::Integer(id as int),
    ) by {
        hwatu::a_script_names_its_window(id, js, timeout_ms);
    }
    lemma_action_names(action);
    reveal_strlit("id");
    reveal_strlit("cmd");
    reveal_strlit("path");
    reveal_strlit("selector");
    reveal_strlit("timeout_ms");
    assert("id"@.len() == 2);
    assert("timeout_ms"@.len() == 10);
}

/// The actions that act on a window have names of their own.
proof fn lemma_action_names(action: Seq<char>)
    requires
        acts_on_a_window(action),
    ensures
        action != "open"@,
        action != "list_tabs"@,
        action != "get_active_tab"@,
        action != "new_tab"@,
        action != "select_tab"@,
        action != "press"@,
        action != "provider_command"@,
{
    reveal_strlit("snapshot");
    reveal_strlit("get_content");
    reveal_strlit("interactables");
    reveal_strlit("click");
    reveal_strlit("type");
    reveal_strlit("fill_form");
    reveal_strlit("select");
    reveal_strlit("wait");
    reveal_strlit("screenshot");
    reveal_strlit("eval");
    reveal_strlit("scroll");
    reveal_strlit("list_frames");
    reveal_strlit("upload");
    reveal_strlit("open");
    reveal_strlit("list_tabs");
    reveal_strlit("get_active_tab");
    reveal_strlit("new_tab");
    reveal_strlit("select_tab");
    reveal_strlit("press");
    reveal_strlit("provider_command");
    assert("open"@[0] == 'o' && "list_tabs"@[5] == 't' && "get_active_tab"@[4] == 'a'
        && "new_tab"@[0] == 'n' && "select_tab"@.len() == 10 && "select_tab"@[1] == 'e' && "screenshot"@[1]
        == 'c' && "press"@[0] == 'p'
        && "provider_command"@[0] == 'p');
    assert(action.len() > 0);
    assert(action[0] != 'o' && action[0] != 'n' && action[0] != 'p');
}

/// A window is shown only to who asks for it: without focus and without a preference
/// for a visible mode, windows are opened headless.
pub proof fn windows_stay_hidden_unless_asked_for(
    focus: Option<bool>,
    preference: Option<Seq<char>>,
)
    requires
        focus != Some(true),
        preference != Some("normal"@),
        preference != Some("background"@),
    ensures
        mode_of(focus, preference) == "headless"@,
{
}

} // verus!
