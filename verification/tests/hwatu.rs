use jcode::hwatu::{
    check_response, ensure_daemon, eval_request, hwatu_available, hwatu_binary, hwatu_candidates,
    list_request, list_windows, member_or_null, ping_request, read_response, request_line,
    socket_path, DaemonAction, DaemonEvent, DaemonStage, IpcError, SessionWindow, StartReport,
    WindowChoice,
};
use jcode::hwatu_action::{
    finish_hwatu_action, finish_interactables, finish_screenshot, open_mode, plan_hwatu_action,
    plan_press_script, screenshot_name, setup_output, status_output, window_title, ActionError,
    BrowserInput, Finish, FormField, HwatuPlan, Outcome, ScrollTarget, ToolOutput,
};
use serde_json::Value;

const JS_HELPERS: &str = r#"
const findEl = (selector, text) => {
  if (selector) {
    const el = document.querySelector(selector);
    if (!el) throw new Error('no element matches selector: ' + selector);
    return el;
  }
  if (text) {
    const walk = document.createTreeWalker(document.body, NodeFilter.SHOW_ELEMENT);
    let best = null;
    while (walk.nextNode()) {
      const el = walk.currentNode;
      const t = (el.innerText || el.value || '').trim();
      if (!t || !t.includes(text)) continue;
      if (!best || el.contains(best) === false && best.contains(el)) best = el;
      if (!best || best.innerText.length > t.length) best = el;
    }
    if (!best) throw new Error('no element contains text: ' + text);
    const clickable = best.closest('a,button,[role=button],input,select,textarea,label,[onclick]');
    return clickable || best;
  }
  throw new Error('selector or text required');
};
const setValue = (el, value) => {
  const proto = el instanceof HTMLTextAreaElement ? HTMLTextAreaElement.prototype
    : el instanceof HTMLSelectElement ? HTMLSelectElement.prototype
    : HTMLInputElement.prototype;
  const desc = Object.getOwnPropertyDescriptor(proto, 'value');
  if (desc && desc.set) desc.set.call(el, value); else el.value = value;
  el.dispatchEvent(new Event('input', { bubbles: true }));
  el.dispatchEvent(new Event('change', { bubbles: true }));
};
const describe = (el) => ({
  tag: el.tagName.toLowerCase(),
  text: (el.innerText || el.value || '').trim().slice(0, 120),
});
"#;

const REPORT: &str = r#"
const reportScroll = async (matched) => {
  // One macrotask lets the instant scroll settle; rAF never fires
  // in unmapped/background windows, where agent scrolls run.
  await new Promise(r => setTimeout(r, 0));
  const doc = document.documentElement;
  const maxY = Math.max(0, doc.scrollHeight - window.innerHeight);
  return {
    x: window.scrollX,
    y: window.scrollY,
    max_y: maxY,
    at_bottom: window.scrollY >= maxY - 1,
    ...(matched === undefined ? {} : { matched }),
  };
};"#;

fn parse(text: &str) -> Value {
    serde_json::from_str(text).unwrap()
}

fn input() -> BrowserInput {
    BrowserInput {
        url: None,
        new_tab: None,
        window_id: None,
        tab_id: None,
        wait: None,
        timeout_ms: None,
        focus: None,
        format: None,
        selector: None,
        text: None,
        x: None,
        y: None,
        clear: None,
        submit: None,
        fields: None,
        contains: None,
        script: None,
        position: None,
        scroll_to: None,
        key: None,
        provider_action: None,
        params: None,
        path: None,
    }
}

fn s(text: &str) -> Option<String> {
    Some(text.to_string())
}

fn plan(action: &str, input: &BrowserInput, window: Option<i64>) -> Result<HwatuPlan, ActionError> {
    plan_hwatu_action(action, input, window, None, "/tmp/shot.png")
}

fn sent(action: &str, input: &BrowserInput, window: Option<i64>) -> (Value, Finish) {
    match plan(action, input, window) {
        Ok(HwatuPlan::Send { request, finish }) => (request, finish),
        other => panic!("{other:?}"),
    }
}

fn script(action: &str, input: &BrowserInput) -> String {
    let (request, _) = sent(action, input, Some(7));
    assert_eq!(request["cmd"], "eval");
    assert_eq!(request["id"], 7);
    request["js"].as_str().unwrap().to_string()
}

fn refused(action: &str, input: &BrowserInput) -> String {
    match plan(action, input, None) {
        Err(ActionError::Invalid(message)) => message,
        other => panic!("{other:?}"),
    }
}

fn finished(finish: Finish, action: &str, response: &str) -> ToolOutput {
    let mut session = SessionWindow::new();
    match finish_hwatu_action(finish, action, parse(response), &mut session) {
        Ok(Outcome::Output(o)) => o,
        other => panic!("{other:?}"),
    }
}

#[test]
fn windows_are_remembered() {
    let mut session = SessionWindow::new();
    assert_eq!(session.id, 0);
    session.remember_window(&parse(r#"{"window":{"id":12}}"#));
    assert_eq!(session.id, 12);
    for other in [r#"{"window":{"id":"x"}}"#, r#"{"window":3}"#, "{}", "[]"] {
        session.remember_window(&parse(other));
        assert_eq!(session.id, 12);
    }
}

#[test]
fn explicit_windows_win() {
    let session = SessionWindow { id: 5 };
    assert!(matches!(session.choose_window(Some(1), Some(2)), WindowChoice::Settled(Some(1))));
    assert!(matches!(session.choose_window(None, Some(2)), WindowChoice::Settled(Some(2))));
    assert!(matches!(session.choose_window(None, None), WindowChoice::IfOpen(5)));
    assert!(matches!(SessionWindow::new().choose_window(None, None), WindowChoice::Settled(None)));
}

#[test]
fn closed_windows_are_forgotten() {
    let windows = list_windows(&parse(r#"{"windows":[{"id":4},{"id":5},{"title":"x"}]}"#));
    assert_eq!(windows.len(), 3);
    let mut session = SessionWindow { id: 5 };
    assert_eq!(session.session_window_id(5, Some(&windows)), Some(5));
    assert_eq!(session.id, 5);
    assert_eq!(session.session_window_id(6, Some(&windows)), None);
    assert_eq!(session.id, 0);
    let mut session = SessionWindow { id: 5 };
    assert_eq!(session.session_window_id(5, None), None);
    assert_eq!(session.id, 0);
}

#[test]
fn requests_go_on_one_line() {
    assert_eq!(request_line(&ping_request()).unwrap(), b"{\"cmd\":\"ping\"}\n");
    assert_eq!(request_line(&list_request()).unwrap(), b"{\"cmd\":\"list\"}\n");
    let line = request_line(&eval_request(Some(-3), "a\nb", Some(9))).unwrap();
    assert_eq!(
        String::from_utf8(line).unwrap(),
        "{\"cmd\":\"eval\",\"id\":-3,\"js\":\"a\\nb\",\"timeout_ms\":9}\n"
    );
    let bare = request_line(&eval_request(None, "1", None)).unwrap();
    assert_eq!(String::from_utf8(bare).unwrap(), "{\"cmd\":\"eval\",\"js\":\"1\"}\n");
}

#[test]
fn responses_are_checked() {
    assert_eq!(read_response(" {\"status\":\"ok\",\"value\":1}\n").unwrap()["value"], 1);
    let error = read_response(r#"{"status":"err","message":"no window 3"}"#).unwrap_err();
    assert!(matches!(&error, IpcError::Daemon(m) if m == "no window 3"));
    assert_eq!(error.message(), "hwatu: no window 3");
    let error = check_response(parse(r#"{"status":"err"}"#)).unwrap_err();
    assert_eq!(error.message(), "hwatu: unknown hwatu error");
    let error = read_response("").unwrap_err();
    assert!(matches!(error, IpcError::BadResponse(_)));
    assert_eq!(error.message(), "bad response from hwatu daemon");
}

#[test]
fn missing_members_are_null() {
    assert_eq!(member_or_null(&parse(r#"{"value":[1]}"#), "value"), parse("[1]"));
    assert_eq!(member_or_null(&parse("{}"), "value"), Value::Null);
    assert!(list_windows(&parse("{}")).is_empty());
    assert!(list_windows(&parse(r#"{"windows":3}"#)).is_empty());
}

#[test]
fn the_daemon_is_found() {
    assert_eq!(socket_path(Some("/run/u")).as_deref(), Some("/run/u/hwatu.sock"));
    assert_eq!(socket_path(None), None);
    let dirs = vec!["/usr/bin".to_string(), "".to_string()];
    assert_eq!(
        hwatu_candidates(Some("/x/hw"), Some("/home/u"), &dirs),
        ["/x/hw", "/home/u/.local/bin/hwatu", "/usr/bin/hwatu", "hwatu"]
    );
    assert!(hwatu_candidates(None, None, &Vec::new()).is_empty());
    assert_eq!(hwatu_binary(vec!["a", "b", "c"], &vec![false, true, true]), Some("b"));
    assert_eq!(hwatu_binary(vec!["a", "b", "c"], &vec![false, false, false]), None);
    assert!(hwatu_available(true, false) && hwatu_available(false, true));
    assert!(!hwatu_available(false, false));
}

fn pinged(answered: bool, binary: Option<&str>) -> DaemonEvent<&str> {
    DaemonEvent::Pinged { answered, binary }
}

#[test]
fn a_daemon_that_answers_is_ready() {
    for stage in [DaemonStage::FirstPing, DaemonStage::SecondPing] {
        let (next, action) = ensure_daemon(stage, pinged(true, None));
        assert!(next == DaemonStage::Closed && matches!(action, DaemonAction::Ready));
    }
}

#[test]
fn a_daemon_that_is_down_is_started() {
    let (next, action) = ensure_daemon(DaemonStage::FirstPing, pinged(false, Some("/b/hwatu")));
    assert_eq!(next, DaemonStage::Started);
    assert!(matches!(action, DaemonAction::Start { binary } if binary == "/b/hwatu"));
    let report = StartReport { success: true, stderr: String::new() };
    let (next, action) = ensure_daemon(next, DaemonEvent::<&str>::Ran(Ok(report)));
    assert!(next == DaemonStage::SecondPing && matches!(action, DaemonAction::Ping));
}

#[test]
fn a_daemon_that_cannot_be_had_is_reported() {
    let failure = |stage, event| match ensure_daemon(stage, event) {
        (DaemonStage::Closed, DaemonAction::Fail { message }) => message,
        other => panic!("{other:?}"),
    };
    assert_eq!(
        failure(DaemonStage::FirstPing, pinged(false, None)),
        "hwatu is not installed (no hwatu binary on PATH or in ~/.local/bin). \
         Install it from https://github.com/hongnoul/hwatu"
    );
    let report = StartReport { success: false, stderr: " no display\n".to_string() };
    assert_eq!(
        failure(DaemonStage::Started, DaemonEvent::Ran(Ok(report))),
        "could not start the hwatu daemon: no display"
    );
    assert_eq!(
        failure(DaemonStage::Started, DaemonEvent::Ran(Err("failed to run x".to_string()))),
        "failed to run x"
    );
    assert_eq!(
        failure(DaemonStage::SecondPing, pinged(false, Some("/b"))),
        "hwatu daemon started but its socket is not responding"
    );
}

#[test]
fn windows_open_headless_unless_asked_for() {
    assert_eq!(open_mode(None, None), "headless");
    assert_eq!(open_mode(Some(false), Some("else")), "headless");
    assert_eq!(open_mode(None, Some("headless")), "headless");
    assert_eq!(open_mode(None, Some("background")), "background");
    assert_eq!(open_mode(None, Some("normal")), "normal");
    assert_eq!(open_mode(Some(true), Some("background")), "normal");
    assert_eq!(window_title("open"), "browser open");
}

#[test]
fn a_session_without_a_window_opens_one() {
    let mut i = input();
    assert_eq!(refused("open", &i), "url is required for open");
    i.url = s("https://a");
    let (request, finish) = sent("open", &i, None);
    assert_eq!(request, parse(r#"{"cmd":"open","url":"https://a","mode":"headless"}"#));
    assert!(matches!(finish, Finish::Opened(url) if url == "https://a"));
    i.new_tab = Some(true);
    i.focus = Some(true);
    let (request, _) = sent("open", &i, Some(3));
    assert_eq!(request, parse(r#"{"cmd":"open","url":"https://a","mode":"normal"}"#));
}

#[test]
fn a_session_navigates_its_own_window() {
    let mut i = input();
    i.url = s("https://a");
    let (request, _) = sent("open", &i, Some(3));
    assert_eq!(request, parse(r#"{"cmd":"navigate","url":"https://a","wait":true,"id":3}"#));
    i.wait = Some(false);
    i.timeout_ms = Some(50);
    let (request, _) = sent("open", &i, Some(3));
    assert_eq!(
        request,
        parse(r#"{"cmd":"navigate","url":"https://a","wait":false,"id":3,"timeout_ms":50}"#)
    );
}

#[test]
fn windows_stand_for_tabs() {
    let mut i = input();
    let (request, finish) = sent("list_tabs", &i, Some(1));
    assert!(request == parse(r#"{"cmd":"list"}"#) && matches!(finish, Finish::ListTabs));
    let (request, finish) = sent("get_active_tab", &i, Some(1));
    assert!(request == parse(r#"{"cmd":"list"}"#) && matches!(finish, Finish::ActiveTab));
    let (request, finish) = sent("new_tab", &i, Some(1));
    assert_eq!(request, parse(r#"{"cmd":"open","mode":"headless"}"#));
    assert!(matches!(finish, Finish::NewTab));
    i.url = s("u");
    let (request, _) = sent("new_tab", &i, Some(1));
    assert_eq!(request, parse(r#"{"cmd":"open","mode":"headless","url":"u"}"#));
    assert_eq!(refused("select_tab", &i), "tab_id is required for select_tab");
    i.window_id = Some(8);
    let (request, _) = sent("select_tab", &i, Some(1));
    assert_eq!(request, parse(r#"{"cmd":"focus","id":8}"#));
    i.tab_id = Some(9);
    let (request, finish) = sent("select_tab", &i, Some(1));
    assert_eq!(request, parse(r#"{"cmd":"focus","id":9}"#));
    assert!(matches!(finish, Finish::Focused(9)));
}

#[test]
fn pages_are_read_in_three_formats() {
    let text = "return '# ' + document.title + '\\n' + location.href + '\\n\\n' + \
                     (document.body ? document.body.innerText : '');";
    let mut i = input();
    assert_eq!(script("get_content", &i), text);
    i.format = s("html");
    assert_eq!(script("get_content", &i), "return document.documentElement.outerHTML;");
    assert_eq!(script("snapshot", &i), text);
    i.format = s("title");
    assert_eq!(script("get_content", &i), "return document.title + '\\n' + location.href;");
    i.format = s("pdf");
    assert_eq!(script("get_content", &i), text);
}

#[test]
fn interactables_are_listed_by_a_script() {
    let js = format!(
        r#"{JS_HELPERS}
const seen = new Set();
const out = [];
const els = document.querySelectorAll('a[href],button,input,select,textarea,[role=button],[role=link],[role=tab],[onclick]');
for (const el of els) {{
  if (seen.has(el)) continue;
  seen.add(el);
  const rect = el.getBoundingClientRect();
  if (rect.width === 0 && rect.height === 0) continue;
  const d = describe(el);
  let selector = el.tagName.toLowerCase();
  if (el.id) selector += '#' + CSS.escape(el.id);
  else if (el.name) selector += `[name="${{el.name}}"]`;
  else if (el.className && typeof el.className === 'string') {{
    const cls = el.className.trim().split(/\s+/).slice(0, 2).map(CSS.escape).join('.');
    if (cls) selector += '.' + cls;
  }}
  out.push({{ type: el.tagName === 'A' ? 'link' : (el.type || 'element'), tag: d.tag, text: d.text, selector }});
  if (out.length >= 150) break;
}}
return {{ elements: out }};"#
    );
    assert_eq!(script("interactables", &input()), js);
}

#[test]
fn clicks_hit_points_and_elements() {
    let mut i = input();
    assert_eq!(refused("click", &i), "click requires selector, text, or x/y coordinates");
    i.y = s("4");
    assert_eq!(refused("click", &i), "click requires selector, text, or x/y coordinates");
    let (x, y) = ("3.5", "4");
    i.x = s(x);
    let js = format!(
        r#"const el = document.elementFromPoint({x}, {y});
if (!el) throw new Error('no element at ({x}, {y})');
el.click();
return {{ clicked: el.tagName.toLowerCase() }};"#
    );
    assert_eq!(script("click", &i), js);
    i.y = None;
    i.selector = s("a[href=\"x\"]");
    i.text = s("Say \"hi\"\n\u{1}\\");
    let js = format!(
        r#"{JS_HELPERS}
const el = findEl({}, {});
el.scrollIntoView({{ block: 'center' }});
el.click();
return {{ clicked: describe(el) }};"#,
        serde_json::to_string(&i.selector).unwrap(),
        serde_json::to_string(&i.text).unwrap(),
    );
    assert_eq!(script("click", &i), js);
    i.text = None;
    assert!(script("click", &i).contains("findEl(\"a[href=\\\"x\\\"]\", null);"));
}

#[test]
fn texts_are_typed() {
    let mut i = input();
    assert_eq!(refused("type", &i), "text is required for type");
    i.text = s("hi");
    i.submit = Some(true);
    let js = |i: &BrowserInput| {
        format!(
            r#"{JS_HELPERS}
const el = {selector} ? findEl({selector}, null) : document.activeElement;
if (!el || el === document.body) throw new Error('no target element; pass a selector');
el.focus();
const current = {clear} ? '' : (el.value || '');
setValue(el, current + {text});
if ({submit} && el.form) el.form.requestSubmit ? el.form.requestSubmit() : el.form.submit();
return {{ typed: describe(el) }};"#,
            selector = serde_json::to_string(&i.selector).unwrap(),
            text = serde_json::to_string(i.text.as_deref().unwrap()).unwrap(),
            clear = i.clear.unwrap_or(false),
            submit = i.submit.unwrap_or(false),
        )
    };
    assert_eq!(script("type", &i), js(&i));
    i.selector = s("#q");
    i.clear = Some(true);
    i.submit = None;
    assert_eq!(script("type", &i), js(&i));
}

fn fill(fields: &str) -> String {
    format!(
        r#"{JS_HELPERS}
const fields = {fields};
const results = [];
for (const f of fields) {{
  const el = findEl(f.selector, null);
  if (typeof f.checked === 'boolean') {{
    el.checked = f.checked;
    el.dispatchEvent(new Event('change', {{ bubbles: true }}));
  }} else if (f.value !== null && f.value !== undefined) {{
    setValue(el, f.value);
  }}
  results.push(describe(el));
}}
return {{ filled: results }};"#,
        fields = fields,
    )
}

#[test]
fn forms_are_filled() {
    let mut i = input();
    assert_eq!(refused("fill_form", &i), "fields are required for fill_form");
    i.fields = Some(vec![
        FormField { selector: "#a".to_string(), value: s("1"), checked: None },
        FormField { selector: "#b".to_string(), value: None, checked: Some(true) },
    ]);
    assert_eq!(
        script("fill_form", &i),
        fill(r##"[{"checked":null,"selector":"#a","value":"1"},{"checked":true,"selector":"#b","value":null}]"##)
    );
    i.fields = Some(Vec::new());
    assert_eq!(script("fill_form", &i), fill("[]"));
}

#[test]
fn options_are_selected() {
    let mut i = input();
    assert_eq!(refused("select", &i), "selector is required for select");
    i.selector = s("#s");
    assert_eq!(refused("select", &i), "text is required for select (used as the option value)");
    i.text = s("v");
    assert_eq!(script("select", &i), fill(r##"[{"selector":"#s","value":"v"}]"##));
}

#[test]
fn waits_get_headroom() {
    let mut i = input();
    i.timeout_ms = Some(u64::MAX);
    assert_eq!(refused("wait", &i), "wait requires selector, text, or contains");
    i.timeout_ms = None;
    i.selector = s("#a");
    i.text = s("t");
    let js = |timeout: u64, needle: &str| {
        format!(
            r#"const deadline = Date.now() + {timeout};
const selector = {selector};
const needle = {needle};
while (Date.now() < deadline) {{
  if (selector && document.querySelector(selector)) return {{ found: 'selector' }};
  if (needle && document.body && document.body.innerText.includes(needle)) return {{ found: 'text' }};
  await new Promise(r => setTimeout(r, 100));
}}
throw new Error('wait timed out after {timeout} ms');"#,
            selector = "\"#a\"",
            needle = needle,
        )
    };
    assert_eq!(script("wait", &i), js(10_000, "\"t\""));
    let (request, _) = sent("wait", &i, None);
    assert_eq!(request["timeout_ms"], 12_000);
    i.contains = s("c");
    i.timeout_ms = Some(u64::MAX - 2_000);
    assert_eq!(script("wait", &i), js(u64::MAX - 2_000, "\"c\""));
    let (request, _) = sent("wait", &i, None);
    assert_eq!(request["timeout_ms"], u64::MAX);
}

#[test]
fn images_go_to_a_file() {
    assert_eq!(screenshot_name(Some(1_700_000_000_123)), "jcode-hwatu-1700000000123.png");
    assert_eq!(screenshot_name(None), "jcode-hwatu-0.png");
    assert_eq!(
        screenshot_name(Some(u128::MAX)),
        format!("jcode-hwatu-{}.png", u128::MAX)
    );
    let (request, finish) = sent("screenshot", &input(), Some(2));
    assert_eq!(request, parse(r#"{"cmd":"screenshot","path":"/tmp/shot.png","id":2}"#));
    assert!(matches!(finish, Finish::Screenshot(t) if t == "/tmp/shot.png"));
    let (request, _) = sent("screenshot", &input(), None);
    assert_eq!(request, parse(r#"{"cmd":"screenshot","path":"/tmp/shot.png"}"#));
}

#[test]
fn scripts_are_run_as_they_are() {
    let mut i = input();
    assert_eq!(refused("eval", &i), "script is required for eval");
    i.script = s("return 1;");
    let (request, finish) = sent("eval", &i, None);
    assert_eq!(request, parse(r#"{"cmd":"eval","js":"return 1;"}"#));
    assert!(matches!(finish, Finish::Eval));
}

#[test]
fn scrolls_report_where_they_landed() {
    let mut i = input();
    assert_eq!(refused("scroll", &i), "scroll requires x/y, selector, position, or scroll_to");
    i.y = s("20");
    assert_eq!(
        script("scroll", &i),
        format!("{REPORT}\nwindow.scrollBy({{left: {}, top: {}}});\nreturn reportScroll();", 0.0, 20.0)
    );
    i.scroll_to = Some(ScrollTarget { x: s("1.5"), y: None });
    assert_eq!(
        script("scroll", &i),
        format!("{REPORT}\nwindow.scrollTo({{left: {}, top: {}}});\nreturn reportScroll();", 1.5, 0.0)
    );
    i.selector = s("h3");
    let js = |contains: &str| {
        format!(
            r#"{REPORT}
const selector = {selector};
const contains = {contains};
let els = [...document.querySelectorAll(selector)];
const total = els.length;
if (contains !== null)
  els = els.filter(e => (e.textContent || '').includes(contains));
const el = els[0];
if (!el) {{
  const filt = contains === null ? '' : ` (${{els.length}} after contains filter)`;
  throw new Error(`no match: ${{total}} element(s) for selector${{filt}}`);
}}
el.scrollIntoView({{ block: 'center' }});
return reportScroll({{
  matches: els.length,
  tag: el.tagName.toLowerCase(),
  text: (el.textContent || '').trim().slice(0, 120),
}});"#,
            selector = "\"h3\"",
            contains = contains,
        )
    };
    assert_eq!(script("scroll", &i), js("null"));
    i.contains = s("Agents");
    assert_eq!(script("scroll", &i), js("\"Agents\""));
    i.position = s("top");
    assert_eq!(
        script("scroll", &i),
        format!("{REPORT}\nwindow.scrollTo({{top: 0}});\nreturn reportScroll();")
    );
    i.position = s("bottom");
    assert_eq!(
        script("scroll", &i),
        format!("{REPORT}\nwindow.scrollTo({{top: document.documentElement.scrollHeight}});\nreturn reportScroll();")
    );
    i.position = s("left");
    assert_eq!(refused("scroll", &i), "unsupported scroll position: left");
}

#[test]
fn keys_are_pressed_by_a_script() {
    let mut i = input();
    i.key = s("Enter");
    i.selector = s("#a");
    assert!(matches!(
        plan("press", &i, Some(1)),
        Ok(HwatuPlan::Press { key: Some(k), selector: Some(q) }) if k == "Enter" && q == "#a"
    ));
    match plan_press_script("press it", &i, Some(1)) {
        Ok(HwatuPlan::Send { request, finish: Finish::ShowValue }) => {
            assert_eq!(request, parse(r#"{"cmd":"eval","js":"press it","id":1}"#));
        }
        other => panic!("{other:?}"),
    }
}

#[test]
fn frames_are_listed() {
    let js = r#"const frames = [];
document.querySelectorAll('iframe,frame').forEach((f, i) => {
  frames.push({ index: i, src: f.src || null, name: f.name || null });
});
return { frames };"#;
    assert_eq!(script("list_frames", &input()), js);
}

#[test]
fn commands_are_passed_on() {
    let mut i = input();
    assert_eq!(
        refused("provider_command", &i),
        "provider_action is required when action='provider_command'"
    );
    i.provider_action = s("zoom");
    let (request, finish) = sent("provider_command", &i, Some(1));
    assert_eq!(request, parse(r#"{"cmd":"zoom"}"#));
    assert!(matches!(finish, Finish::Response));
    i.params = Some(parse(r#"{"cmd":"quit","by":[1,{"x":2}]}"#));
    let (request, _) = sent("provider_command", &i, Some(1));
    assert_eq!(request, parse(r#"{"cmd":"zoom","by":[1,{"x":2}]}"#));
    i.params = Some(parse("[1]"));
    let (request, _) = sent("provider_command", &i, Some(1));
    assert_eq!(request, parse(r#"{"cmd":"zoom"}"#));
}

#[test]
fn files_are_uploaded() {
    let mut i = input();
    assert_eq!(refused("upload", &i), "path is required for upload");
    i.path = s("/f");
    let (request, _) = sent("upload", &i, None);
    assert_eq!(request, parse(r#"{"cmd":"upload","selector":"input[type=file]","path":"/f"}"#));
    i.selector = s("#u");
    i.timeout_ms = Some(1);
    let (request, _) = sent("upload", &i, Some(2));
    assert_eq!(
        request,
        parse(r##"{"cmd":"upload","selector":"#u","path":"/f","id":2,"timeout_ms":1}"##)
    );
}

#[test]
fn other_actions_are_unknown() {
    assert_eq!(
        refused("dance", &input()),
        "Unsupported browser action for hwatu backend: dance"
    );
}

#[test]
fn actions_name_the_window_of_the_session() {
    let mut i = input();
    i.text = s("t");
    i.selector = s("#s");
    i.script = s("return 1;");
    i.path = s("/f");
    i.fields = Some(Vec::new());
    i.timeout_ms = Some(4);
    for action in [
        "snapshot", "get_content", "interactables", "click", "type", "fill_form", "select", "wait",
        "screenshot", "eval", "scroll", "list_frames", "upload",
    ] {
        let (request, _) = sent(action, &i, Some(31));
        assert_eq!(request["id"], 31, "{action}");
        let (request, _) = sent(action, &i, None);
        assert!(request.get("id").is_none(), "{action}");
    }
}

#[test]
fn an_opened_window_becomes_the_sessions() {
    let mut session = SessionWindow::new();
    let response = parse(r#"{"window":{"id":31,"url":"u"}}"#);
    let finish = Finish::Opened("u".to_string());
    match finish_hwatu_action(finish, "open", response, &mut session) {
        Ok(Outcome::Output(o)) => {
            assert_eq!(o.text, "Opened u");
            assert_eq!(o.title, "browser open");
            assert_eq!(o.metadata, Some(parse(r#"{"id":31,"url":"u"}"#)));
        }
        other => panic!("{other:?}"),
    }
    assert_eq!(session.id, 31);
    assert!(matches!(session.choose_window(None, None), WindowChoice::IfOpen(31)));
    let response = parse(r#"{"window":{"id":32}}"#);
    assert!(finish_hwatu_action(Finish::NewTab, "new_tab", response, &mut session).is_ok());
    assert_eq!(session.id, 32);
    let response = parse(r#"{"window":{"id":33}}"#);
    assert!(finish_hwatu_action(Finish::Response, "x", response, &mut session).is_ok());
    assert_eq!(session.id, 32);
}

#[test]
fn windows_are_listed() {
    let response = r#"{"windows":[
        {"id":1,"title":"One","url":"u1"},
        {"id":2,"title":"Two","url":"u2","focused":true,"suspended":true},
        {"id":-3,"focused":"yes"}
    ]}"#;
    let o = finished(Finish::ListTabs, "list_tabs", response);
    assert_eq!(o.text, "1. One u1 \n2. Two u2 [focused][suspended]\n0.   ");
    assert_eq!(o.metadata.unwrap()["windows"][1]["id"], 2);
    let o = finished(Finish::ListTabs, "list_tabs", "{}");
    assert_eq!(o.text, "No windows open. hwatu windows double as tabs (the WM tiles them).");
    assert_eq!(o.metadata, Some(parse(r#"{"windows":[]}"#)));
    let o = finished(Finish::ActiveTab, "get_active_tab", response);
    assert!(o.text.contains("\"title\": \"Two\""));
    let o = finished(Finish::ActiveTab, "get_active_tab", r#"{"windows":[{"id":1},{"id":2}]}"#);
    assert_eq!(o.text, "{\n  \"id\": 1\n}");
    let o = finished(Finish::ActiveTab, "get_active_tab", "{}");
    assert_eq!(o.text, "No windows open.");
}

#[test]
fn responses_are_shown() {
    let o = finished(Finish::NewTab, "new_tab", r#"{"window":{"id":1}}"#);
    assert_eq!(o.text, "{\n  \"id\": 1\n}");
    assert_eq!(o.metadata, Some(parse(r#"{"id":1}"#)));
    let o = finished(Finish::NewTab, "new_tab", "{}");
    assert_eq!((o.text.as_str(), o.metadata), ("null", Some(Value::Null)));
    let o = finished(Finish::Focused(-4), "select_tab", "{}");
    assert_eq!((o.text.as_str(), o.metadata), ("Focused window -4", None));
    let o = finished(Finish::Content, "snapshot", r#"{"value":"page"}"#);
    assert_eq!((o.text.as_str(), o.metadata), ("page", None));
    let o = finished(Finish::Content, "snapshot", r#"{"value":3}"#);
    assert_eq!(o.text, "");
    let o = finished(Finish::ShowValue, "click", r#"{"value":{"clicked":"a"}}"#);
    assert_eq!(o.text, "{\n  \"clicked\": \"a\"\n}");
    assert_eq!(o.title, "browser click");
    let o = finished(Finish::Response, "provider_command", r#"{"status":"ok"}"#);
    assert_eq!(o.text, "{\n  \"status\": \"ok\"\n}");
    assert!(o.image.is_none());
}

#[test]
fn results_of_scripts_are_shown() {
    let o = finished(Finish::Eval, "eval", r#"{"value":"plain"}"#);
    assert_eq!(o.text, "plain");
    assert_eq!(o.metadata, Some(parse(r#"{"result":"plain"}"#)));
    let o = finished(Finish::Eval, "eval", r#"{"value":[1]}"#);
    assert_eq!(o.text, "[\n  1\n]");
    assert_eq!(o.metadata, Some(parse(r#"{"result":[1]}"#)));
}

#[test]
fn elements_are_written_out() {
    let mut session = SessionWindow::new();
    let response = parse(r#"{"value":{"elements":[]}}"#);
    match finish_hwatu_action(Finish::Interactables, "interactables", response, &mut session) {
        Ok(Outcome::FormatInteractables { value }) => {
            let o = finish_interactables("none".to_string(), value, "interactables");
            assert_eq!((o.text.as_str(), o.title.as_str()), ("none", "browser interactables"));
            assert_eq!(o.metadata, Some(parse(r#"{"elements":[]}"#)));
        }
        other => panic!("{other:?}"),
    }
}

#[test]
fn images_are_encoded() {
    let mut session = SessionWindow::new();
    let shot = |response: &str, session: &mut SessionWindow| {
        let finish = Finish::Screenshot("/t.png".to_string());
        match finish_hwatu_action(finish, "screenshot", parse(response), session) {
            Ok(Outcome::ReadImage { saved, is_named, response }) => (saved, is_named, response),
            other => panic!("{other:?}"),
        }
    };
    let (saved, is_named, response) = shot(r#"{"path":"/else.png"}"#, &mut session);
    assert_eq!((saved.as_str(), is_named), ("/else.png", true));
    for (bytes, text) in [
        (vec![], ""),
        (vec![102], "Zg=="),
        (vec![102, 111], "Zm8="),
        (vec![102, 111, 111], "Zm9v"),
        (vec![0xfb, 0xff, 0xbf, 0x3e], "+/+/Pg=="),
    ] {
        let o = finish_screenshot(&saved, response.clone(), Some(&bytes), "screenshot");
        assert_eq!(o.text, "Captured hwatu screenshot to /else.png.");
        assert_eq!(o.metadata, Some(response.clone()));
        let image = o.image.unwrap();
        assert_eq!(image.media_type, "image/png");
        assert_eq!(image.data, text);
        assert_eq!(image.label, "hwatu screenshot: /else.png");
    }
    let (saved, is_named, response) = shot("{}", &mut session);
    assert_eq!((saved.as_str(), is_named), ("/t.png", false));
    assert!(finish_screenshot(&saved, response, None, "screenshot").image.is_none());
}

#[test]
fn the_status_tells_what_is_missing() {
    let o = status_output(true, true);
    assert_eq!((o.text.as_str(), o.title.as_str()), ("hwatu daemon is running and responding.", "browser status"));
    assert_eq!(
        o.metadata,
        Some(parse(
            r#"{"backend":"hwatu","browser":"hwatu","binary_installed":true,"responding":true,"ready":true}"#
        ))
    );
    assert_eq!(
        status_output(true, false).text,
        "hwatu is installed but the daemon is not running. Any browser action will auto-start it."
    );
    assert_eq!(
        status_output(false, false).text,
        "hwatu is not installed. Install it from https://github.com/hongnoul/hwatu or use browser='firefox'."
    );
}

#[test]
fn the_setup_tells_how_it_went() {
    let o = setup_output(None);
    assert_eq!(o.text, "hwatu daemon is running. No further setup needed.");
    assert_eq!(o.title, "browser setup");
    assert_eq!(o.metadata, Some(parse(r#"{"ready":true,"backend":"hwatu","browser":"hwatu"}"#)));
    let o = setup_output(Some("no display"));
    assert_eq!(o.text, "hwatu setup failed: no display");
    assert_eq!(o.title, "browser setup (incomplete)");
    assert_eq!(o.metadata, Some(parse(r#"{"ready":false,"backend":"hwatu","browser":"hwatu"}"#)));
}
