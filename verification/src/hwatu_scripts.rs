//! The scripts that browser actions run in a page.
use vstd::prelude::*;
use vstd::string::*;

verus! {

/// Helpers that stand before action scripts: element lookup by CSS selector or
/// visible text, and a setter that controlled inputs respect.
pub const JS_HELPERS: &'static str = r#"
const findEl = (selector, text) => {
  if (selector) {
    const el = document.querySelector(selector);
    if (!el) throw new Error('no element matches selector: ' + selector);
    return el;
  }
  if (text) {
    const walk = document.createTreeWalker(document.body, NodeFilter.SHOW_ELEMENT);
    let best = null;
    while (walk.nextNode()) {
      const el = walk.currentNode;
      const t = (el.innerText || el.value || '').trim();
      if (!t || !t.includes(text)) continue;
      if (!best || el.contains(best) === false && best.contains(el)) best = el;
      if (!best || best.innerText.length > t.length) best = el;
    }
    if (!best) throw new Error('no element contains text: ' + text);
    const clickable = best.closest('a,button,[role=button],input,select,textarea,label,[onclick]');
    return clickable || best;
  }
  throw new Error('selector or text required');
};
const setValue = (el, value) => {
  const proto = el instanceof HTMLTextAreaElement ? HTMLTextAreaElement.prototype
    : el instanceof HTMLSelectElement ? HTMLSelectElement.prototype
    : HTMLInputElement.prototype;
  const desc = Object.getOwnPropertyDescriptor(proto, 'value');
  if (desc && desc.set) desc.set.call(el, value); else el.value = value;
  el.dispatchEvent(new Event('input', { bubbles: true }));
  el.dispatchEvent(new Event('change', { bubbles: true }));
};
const describe = (el) => ({
  tag: el.tagName.toLowerCase(),
  text: (el.innerText || el.value || '').trim().slice(0, 120),
});
"#;

/// Reports where the page landed after a scroll, and what a selector matched.
pub const REPORT_SCROLL: &'static str = r#"
const reportScroll = async (matched) => {
  // One macrotask lets the instant scroll settle; rAF never fires
  // in unmapped/background windows, where agent scrolls run.
  await new Promise(r => setTimeout(r, 0));
  const doc = document.documentElement;
  const maxY = Math.max(0, doc.scrollHeight - window.innerHeight);
  return {
    x: window.scrollX,
    y: window.scrollY,
    max_y: maxY,
    at_bottom: window.scrollY >= maxY - 1,
    ...(matched === undefined ? {} : { matched }),
  };
};"#;

/// Lists the visible elements that can be acted on.
pub const INTERACTABLES: &'static str = r#"
const seen = new Set();
const out = [];
const els = document.querySelectorAll('a[href],button,input,select,textarea,[role=button],[role=link],[role=tab],[onclick]');
for (const el of els) {
  if (seen.has(el)) continue;
  seen.add(el);
  const rect = el.getBoundingClientRect();
  if (rect.width === 0 && rect.height === 0) continue;
  const d = describe(el);
  let selector = el.tagName.toLowerCase();
  if (el.id) selector += '#' + CSS.escape(el.id);
  else if (el.name) selector += `[name="${el.name}"]`;
  else if (el.className && typeof el.className === 'string') {
    const cls = el.className.trim().split(/\s+/).slice(0, 2).map(CSS.escape).join('.');
    if (cls) selector += '.' + cls;
  }
  out.push({ type: el.tagName === 'A' ? 'link' : (el.type || 'element'), tag: d.tag, text: d.text, selector });
  if (out.length >= 150) break;
}
return { elements: out };"#;

/// Lists the frames of the page.
pub const LIST_FRAMES: &'static str = r#"const frames = [];
document.querySelectorAll('iframe,frame').forEach((f, i) => {
  frames.push({ index: i, src: f.src || null, name: f.name || null });
});
return { frames };"#;

/// The markup of the page.
pub const PAGE_HTML: &'static str = r#"return document.documentElement.outerHTML;"#;

/// The title and the address of the page.
pub const PAGE_TITLE: &'static str = r#"return document.title + '\n' + location.href;"#;

/// The title, the address and the visible text of the page.
pub const PAGE_TEXT: &'static str = r#"return '# ' + document.title + '\n' + location.href + '\n\n' + (document.body ? document.body.innerText : '');"#;

/// The end of a click script at a point.
pub const CLICK_POINT_TAIL: &'static str = r#")');
el.click();
return { clicked: el.tagName.toLowerCase() };"#;

/// The end of a click script.
pub const CLICK_TAIL: &'static str = r#");
el.scrollIntoView({ block: 'center' });
el.click();
return { clicked: describe(el) };"#;

/// The part of a typing script that focuses its target.
pub const TYPE_FOCUS: &'static str = r#", null) : document.activeElement;
if (!el || el === document.body) throw new Error('no target element; pass a selector');
el.focus();
const current = "#;

/// The end of a typing script.
pub const TYPE_TAIL: &'static str = r#" && el.form) el.form.requestSubmit ? el.form.requestSubmit() : el.form.submit();
return { typed: describe(el) };"#;

/// The end of a form-filling script.
pub const FILL_TAIL: &'static str = r#";
const results = [];
for (const f of fields) {
  const el = findEl(f.selector, null);
  if (typeof f.checked === 'boolean') {
    el.checked = f.checked;
    el.dispatchEvent(new Event('change', { bubbles: true }));
  } else if (f.value !== null && f.value !== undefined) {
    setValue(el, f.value);
  }
  results.push(describe(el));
}
return { filled: results };"#;

/// The loop of a waiting script.
pub const WAIT_LOOP: &'static str = r#";
while (Date.now() < deadline) {
  if (selector && document.querySelector(selector)) return { found: 'selector' };
  if (needle && document.body && document.body.innerText.includes(needle)) return { found: 'text' };
  await new Promise(r => setTimeout(r, 100));
}
throw new Error('wait timed out after "#;

/// The end of a script that scrolls to an element.
pub const SCROLL_MATCH_TAIL: &'static str = r#";
let els = [...document.querySelectorAll(selector)];
const total = els.length;
if (contains !== null)
  els = els.filter(e => (e.textContent || '').includes(contains));
const el = els[0];
if (!el) {
  const filt = contains === null ? '' : ` (${els.length} after contains filter)`;
  throw new Error(`no match: ${total} element(s) for selector${filt}`);
}
el.scrollIntoView({ block: 'center' });
return reportScroll({
  matches: els.length,
  tag: el.tagName.toLowerCase(),
  text: (el.textContent || '').trim().slice(0, 120),
});"#;

/// A click on whatever stands at a point.
pub open spec fn click_point_script(x: Seq<char>, y: Seq<char>) -> Seq<char> {
    "const el = document.elementFromPoint("@
        + x
        + ", "@
        + y
        + ");\nif (!el) throw new Error('no element at ("@
        + x
        + ", "@
        + y
        + CLICK_POINT_TAIL@
}

/// A click on whatever stands at a point.
pub fn click_point_js(x: &str, y: &str) -> (r: String)
    ensures
        r@ == click_point_script(x@, y@),
{
    let mut out: String = "const el = document.elementFromPoint(".to_owned();
    out.append(x);
    out.append(", ");
    out.append(y);
    out.append(");\nif (!el) throw new Error('no element at (");
    out.append(x);
    out.append(", ");
    out.append(y);
    out.append(CLICK_POINT_TAIL);
    out
}

/// A click on the element that a selector or a text finds, both in JSON notation.
pub open spec fn click_script(selector: Seq<char>, text: Seq<char>) -> Seq<char> {
    JS_HELPERS@
        + "\nconst el = findEl("@
        + selector
        + ", "@
        + text
        + CLICK_TAIL@
}

/// A click on the element that a selector or a text finds, both in JSON notation.
pub fn click_js(selector: &str, text: &str) -> (r: String)
    ensures
        r@ == click_script(selector@, text@),
{
    let mut out: String = JS_HELPERS.to_owned();
    out.append("\nconst el = findEl(");
    out.append(selector);
    out.append(", ");
    out.append(text);
    out.append(CLICK_TAIL);
    out
}

/// Typing a text into an element; selector and text in JSON notation.
pub open spec fn type_script(selector: Seq<char>, clear: Seq<char>, text: Seq<char>, submit: Seq<char>) -> Seq<char> {
    JS_HELPERS@
        + "\nconst el = "@
        + selector
        + " ? findEl("@
        + selector
        + TYPE_FOCUS@
        + clear
        + " ? '' : (el.value || '');\nsetValue(el, current + "@
        + text
        + ");\nif ("@
        + submit
        + TYPE_TAIL@
}

/// Typing a text into an element; selector and text in JSON notation.
pub fn type_js(selector: &str, clear: &str, text: &str, submit: &str) -> (r: String)
    ensures
        r@ == type_script(selector@, clear@, text@, submit@),
{
    let mut out: String = JS_HELPERS.to_owned();
    out.append("\nconst el = ");
    out.append(selector);
    out.append(" ? findEl(");
    out.append(selector);
    out.append(TYPE_FOCUS);
    out.append(clear);
    out.append(" ? '' : (el.value || '');\nsetValue(el, current + ");
    out.append(text);
    out.append(");\nif (");
    out.append(submit);
    out.append(TYPE_TAIL);
    out
}

/// Filling in form fields, given as a JSON array.
pub open spec fn fill_script(fields: Seq<char>) -> Seq<char> {
    JS_HELPERS@
        + "\nconst fields = "@
        + fields
        + FILL_TAIL@
}

/// Filling in form fields, given as a JSON array.
pub fn fill_js(fields: &str) -> (r: String)
    ensures
        r@ == fill_script(fields@),
{
    let mut out: String = JS_HELPERS.to_owned();
    out.append("\nconst fields = ");
    out.append(fields);
    out.append(FILL_TAIL);
    out
}

/// Waiting until a selector matches or a text shows, both in JSON notation.
pub open spec fn wait_script(timeout: Seq<char>, selector: Seq<char>, needle: Seq<char>) -> Seq<char> {
    "const deadline = Date.now() + "@
        + timeout
        + ";\nconst selector = "@
        + selector
        + ";\nconst needle = "@
        + needle
        + WAIT_LOOP@
        + timeout
        + " ms');"@
}

/// Waiting until a selector matches or a text shows, both in JSON notation.
pub fn wait_js(timeout: &str, selector: &str, needle: &str) -> (r: String)
    ensures
        r@ == wait_script(timeout@, selector@, needle@),
{
    let mut out: String = "const deadline = Date.now() + ".to_owned();
    out.append(timeout);
    out.append(";\nconst selector = ");
    out.append(selector);
    out.append(";\nconst needle = ");
    out.append(needle);
    out.append(WAIT_LOOP);
    out.append(timeout);
    out.append(" ms');");
    out
}

/// Scrolling to the first element that matches a selector and contains a text, both
/// in JSON notation.
pub open spec fn scroll_match_script(selector: Seq<char>, contains: Seq<char>) -> Seq<char> {
    REPORT_SCROLL@
        + "\nconst selector = "@
        + selector
        + ";\nconst contains = "@
        + contains
        + SCROLL_MATCH_TAIL@
}

/// Scrolling to the first element that matches a selector and contains a text, both
/// in JSON notation.
pub fn scroll_match_js(selector: &str, contains: &str) -> (r: String)
    ensures
        r@ == scroll_match_script(selector@, contains@),
{
    let mut out: String = REPORT_SCROLL.to_owned();
    out.append("\nconst selector = ");
    out.append(selector);
    out.append(";\nconst contains = ");
    out.append(contains);
    out.append(SCROLL_MATCH_TAIL);
    out
}

/// Scrolling to a position.
pub open spec fn scroll_to_script(x: Seq<char>, y: Seq<char>) -> Seq<char> {
    REPORT_SCROLL@
        + "\nwindow.scrollTo({left: "@
        + x
        + ", top: "@
        + y
        + "});\nreturn reportScroll();"@
}

/// Scrolling to a position.
pub fn scroll_to_js(x: &str, y: &str) -> (r: String)
    ensures
        r@ == scroll_to_script(x@, y@),
{
    let mut out: String = REPORT_SCROLL.to_owned();
    out.append("\nwindow.scrollTo({left: ");
    out.append(x);
    out.append(", top: ");
    out.append(y);
    out.append("});\nreturn reportScroll();");
    out
}

/// Scrolling by a distance.
pub open spec fn scroll_by_script(x: Seq<char>, y: Seq<char>) -> Seq<char> {
    REPORT_SCROLL@
        + "\nwindow.scrollBy({left: "@
        + x
        + ", top: "@
        + y
        + "});\nreturn reportScroll();"@
}

/// Scrolling by a distance.
pub fn scroll_by_js(x: &str, y: &str) -> (r: String)
    ensures
        r@ == scroll_by_script(x@, y@),
{
    let mut out: String = REPORT_SCROLL.to_owned();
    out.append("\nwindow.scrollBy({left: ");
    out.append(x);
    out.append(", top: ");
    out.append(y);
    out.append("});\nreturn reportScroll();");
    out
}

/// Scrolling to the top of the page.
pub open spec fn scroll_top_script() -> Seq<char> {
    REPORT_SCROLL@
        + "\nwindow.scrollTo({top: 0});\nreturn reportScroll();"@
}

/// Scrolling to the top of the page.
pub fn scroll_top_js() -> (r: String)
    ensures
        r@ == scroll_top_script(),
{
    let mut out: String = REPORT_SCROLL.to_owned();
    out.append("\nwindow.scrollTo({top: 0});\nreturn reportScroll();");
    out
}

/// Scrolling to the bottom of the page.
pub open spec fn scroll_bottom_script() -> Seq<char> {
    REPORT_SCROLL@
        + "\nwindow.scrollTo({top: document.documentElement.scrollHeight});\nreturn reportScroll();"@
}

/// Scrolling to the bottom of the page.
pub fn scroll_bottom_js() -> (r: String)
    ensures
        r@ == scroll_bottom_script(),
{
    let mut out: String = REPORT_SCROLL.to_owned();
    out.append("\nwindow.scrollTo({top: document.documentElement.scrollHeight});\nreturn reportScroll();");
    out
}

/// Listing the elements that can be acted on.
pub open spec fn interactables_script() -> Seq<char> {
    JS_HELPERS@
        + INTERACTABLES@
}

/// Listing the elements that can be acted on.
pub fn interactables_js() -> (r: String)
    ensures
        r@ == interactables_script(),
{
    let mut out: String = JS_HELPERS.to_owned();
    out.append(INTERACTABLES);
    out
}

} // verus!
