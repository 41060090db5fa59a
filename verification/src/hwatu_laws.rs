//! What browser actions do, stated over the requests that are sent and the outputs that
//! are shown.
use crate::hwatu;
use crate::hwatu::{
    check_response, hwatu_candidates, list_windows, member_or_null, IpcError, SessionWindow,
    WindowChoice,
};
use crate::hwatu_action;
use crate::hwatu_action::{
    finish_interactables, finish_screenshot, open_mode, plan_click, plan_content, plan_eval,
    plan_fill_form, plan_hwatu_action, plan_new_tab, plan_open, plan_press_script,
    plan_provider_command, plan_screenshot, plan_scroll, plan_select, plan_select_tab, plan_type,
    plan_upload, plan_wait, screenshot_name, setup_output, status_output, window_title,
    ActionError, BrowserInput, Finish, FormField, HwatuPlan, Outcome, ToolOutput,
};
use crate::hwatu_scripts;
use crate::hwatu_scripts::{
    CLICK_POINT_TAIL, CLICK_TAIL, FILL_TAIL, INTERACTABLES, JS_HELPERS, LIST_FRAMES, PAGE_HTML,
    PAGE_TEXT, PAGE_TITLE, REPORT_SCROLL, SCROLL_MATCH_TAIL, TYPE_FOCUS, TYPE_TAIL, WAIT_LOOP,
};
use crate::json;
use crate::json::JsonView;
use crate::paths;
use crate::text;
use serde_json::Value;
use vstd::prelude::*;
use vstd::string::*;

verus! {

// ---------------------------------------------------------------------------
// Requests
// ---------------------------------------------------------------------------

/// Whether a request has a member with the given key and value.
pub open spec fn carries(request: Value, key: Seq<char>, value: JsonView) -> bool {
    &&& json::json_view(request) is Object
    &&& json::json_view(request)->Object_0.contains_key(key)
    &&& json::json_view(json::json_view(request)->Object_0[key]) == value
}

/// Whether a request has a member with the given key and number, or none with the key
/// where there is no number.
pub open spec fn carries_number(request: Value, key: Seq<char>, n: Option<int>) -> bool {
    if n is Some {
        carries(request, key, JsonView::Integer(n->0))
    } else {
        json::json_view(request) is Object && !json::json_view(request)->Object_0.contains_key(key)
    }
}

/// Whether a request has no members but those with the given keys.
pub open spec fn carries_only(request: Value, keys: Seq<Seq<char>>) -> bool {
    &&& json::json_view(request) is Object
    &&& forall|key: Seq<char>| #[trigger]
        json::json_view(request)->Object_0.contains_key(key) ==> keys.contains(key)
}

/// An optional number as an integer.
pub open spec fn number(n: Option<i64>) -> Option<int> {
    if n is Some {
        Some(n->0 as int)
    } else {
        None
    }
}

/// An optional time as an integer.
pub open spec fn time(n: Option<u64>) -> Option<int> {
    if n is Some {
        Some(n->0 as int)
    } else {
        None
    }
}

/// Whether a request is sent, and its response turned into `finish`.
pub open spec fn is_sent(r: Result<HwatuPlan, ActionError>, finish: Finish) -> bool {
    r is Ok && r->Ok_0 is Send && r->Ok_0->finish == finish
}

/// Whether the arguments are refused in the given words.
pub open spec fn is_refused(r: Result<HwatuPlan, ActionError>, message: Seq<char>) -> bool {
    r is Err && r->Err_0 is Invalid && r->Err_0->Invalid_0@ == message
}

/// Whether a script is sent to run in the window, and what it returns shown.
pub open spec fn runs_script(
    r: Result<HwatuPlan, ActionError>,
    window_id: Option<i64>,
    js: Seq<char>,
    timeout_ms: Option<u64>,
    finish: Finish,
) -> bool {
    &&& is_sent(r, finish)
    &&& carries(r->Ok_0->request, "cmd"@, JsonView::Text("eval"@))
    &&& carries(r->Ok_0->request, "js"@, JsonView::Text(js))
    &&& carries_number(r->Ok_0->request, "id"@, number(window_id))
    &&& carries_number(r->Ok_0->request, "timeout_ms"@, time(timeout_ms))
    &&& carries_only(r->Ok_0->request, seq!["cmd"@, "js"@, "id"@, "timeout_ms"@])
}

/// The JSON notation of a text, or `null` where there is none.
pub open spec fn notation(s: Option<String>) -> Seq<char> {
    if s is Some {
        json::json_quoted(s->0@)
    } else {
        "null"@
    }
}

/// The word for a flag that counts as off where it is not set.
pub open spec fn flag_word(flag: Option<bool>) -> Seq<char> {
    if flag is Some && flag->0 {
        "true"@
    } else {
        "false"@
    }
}

proof fn lemma_keys()
    ensures
        "cmd"@ != "js"@ && "cmd"@ != "id"@ && "cmd"@ != "timeout_ms"@ && "cmd"@ != "url"@ && "cmd"@
            != "mode"@ && "cmd"@ != "wait"@ && "cmd"@ != "path"@ && "cmd"@ != "selector"@,
        "js"@ != "id"@ && "js"@ != "timeout_ms"@ && "id"@ != "timeout_ms"@,
        "url"@ != "mode"@ && "url"@ != "wait"@ && "url"@ != "id"@ && "url"@ != "timeout_ms"@,
        "mode"@ != "wait"@ && "wait"@ != "id"@ && "wait"@ != "timeout_ms"@,
        "path"@ != "id"@ && "path"@ != "selector"@ && "path"@ != "timeout_ms"@,
        "selector"@ != "id"@ && "selector"@ != "timeout_ms"@ && "selector"@ != "value"@
            && "selector"@ != "checked"@ && "value"@ != "checked"@,
{
    reveal_strlit("cmd");
    reveal_strlit("js");
    reveal_strlit("id");
    reveal_strlit("timeout_ms");
    reveal_strlit("url");
    reveal_strlit("mode");
    reveal_strlit("wait");
    reveal_strlit("path");
    reveal_strlit("selector");
    reveal_strlit("value");
    reveal_strlit("checked");
    assert("cmd"@[0] == 'c' && "url"@[0] == 'u' && "js"@[0] == 'j' && "id"@[0] == 'i');
    assert("mode"@[0] == 'm' && "wait"@[0] == 'w' && "path"@[0] == 'p');
    assert("timeout_ms"@[0] == 't' && "selector"@[0] == 's' && "value"@[0] == 'v');
    assert("checked"@.len() == 7);
}

/// What a request carries is told from its fields.
proof fn lemma_fields(request: Value, key: Seq<char>)
    requires
        json::object_fields(request).contains_key("cmd"@) || json::json_view(request) is Object,
    ensures
        json::json_view(request) is Object,
        json::object_fields(request).contains_key(key) <==> json::json_view(
            request,
        )->Object_0.contains_key(key),
        json::object_fields(request).contains_key(key) ==> carries(
            request,
            key,
            json::object_fields(request)[key],
        ),
{
}

proof fn lemma_runs(
    r: Result<HwatuPlan, ActionError>,
    window_id: Option<i64>,
    js: Seq<char>,
    timeout_ms: Option<u64>,
    finish: Finish,
)
    requires
        hwatu_action::runs(r, window_id, js, timeout_ms, finish),
    ensures
        runs_script(r, window_id, js, timeout_ms, finish),
{
    lemma_keys();
    let request = r->Ok_0->request;
    lemma_fields(request, "cmd"@);
    lemma_fields(request, "js"@);
    lemma_fields(request, "id"@);
    lemma_fields(request, "timeout_ms"@);
    let keys = seq!["cmd"@, "js"@, "id"@, "timeout_ms"@];
    assert(keys[0] == "cmd"@ && keys[1] == "js"@ && keys[2] == "id"@ && keys[3] == "timeout_ms"@);
    assert forall|key: Seq<char>| #[trigger]
        json::json_view(request)->Object_0.contains_key(key) implies keys.contains(key) by {
        lemma_fields(request, key);
    }
}
/// The actions have names of their own.
proof fn lemma_names()
    ensures
        "open"@.len() == 4 && "open"@[0] == 'o' && "open"@[1] == 'p',
        "list_tabs"@.len() == 9 && "list_tabs"@[0] == 'l' && "list_tabs"@[1] == 'i',
        "get_active_tab"@.len() == 14 && "get_active_tab"@[0] == 'g' && "get_active_tab"@[1] == 'e',
        "new_tab"@.len() == 7 && "new_tab"@[0] == 'n' && "new_tab"@[1] == 'e',
        "select_tab"@.len() == 10 && "select_tab"@[0] == 's' && "select_tab"@[1] == 'e',
        "snapshot"@.len() == 8 && "snapshot"@[0] == 's' && "snapshot"@[1] == 'n',
        "get_content"@.len() == 11 && "get_content"@[0] == 'g' && "get_content"@[1] == 'e',
        "interactables"@.len() == 13 && "interactables"@[0] == 'i' && "interactables"@[1] == 'n',
        "click"@.len() == 5 && "click"@[0] == 'c' && "click"@[1] == 'l',
        "type"@.len() == 4 && "type"@[0] == 't' && "type"@[1] == 'y',
        "fill_form"@.len() == 9 && "fill_form"@[0] == 'f' && "fill_form"@[1] == 'i',
        "select"@.len() == 6 && "select"@[0] == 's' && "select"@[1] == 'e',
        "wait"@.len() == 4 && "wait"@[0] == 'w' && "wait"@[1] == 'a',
        "screenshot"@.len() == 10 && "screenshot"@[0] == 's' && "screenshot"@[1] == 'c',
        "eval"@.len() == 4 && "eval"@[0] == 'e' && "eval"@[1] == 'v',
        "scroll"@.len() == 6 && "scroll"@[0] == 's' && "scroll"@[1] == 'c',
        "press"@.len() == 5 && "press"@[0] == 'p' && "press"@[1] == 'r',
        "list_frames"@.len() == 11 && "list_frames"@[0] == 'l' && "list_frames"@[1] == 'i',
        "provider_command"@.len() == 16 && "provider_command"@[0] == 'p' && "provider_command"@[1] == 'r',
        "upload"@.len() == 6 && "upload"@[0] == 'u' && "upload"@[1] == 'p',
{
    reveal_strlit("open");
    reveal_strlit("list_tabs");
    reveal_strlit("get_active_tab");
    reveal_strlit("new_tab");
    reveal_strlit("select_tab");
    reveal_strlit("snapshot");
    reveal_strlit("get_content");
    reveal_strlit("interactables");
    reveal_strlit("click");
    reveal_strlit("type");
    reveal_strlit("fill_form");
    reveal_strlit("select");
    reveal_strlit("wait");
    reveal_strlit("screenshot");
    reveal_strlit("eval");
    reveal_strlit("scroll");
    reveal_strlit("press");
    reveal_strlit("list_frames");
    reveal_strlit("provider_command");
    reveal_strlit("upload");
}

/// Whether a plan is the one for an action of the given name.
pub open spec fn is_planned(
    action: Seq<char>,
    input: &BrowserInput,
    window_id: Option<i64>,
    r: Result<HwatuPlan, ActionError>,
) -> bool {
    exists|name: &str, preference: Option<&str>, target: &str|
        name@ == action && #[trigger] call_ensures(
            plan_hwatu_action,
            (name, input, window_id, preference, target),
            r,
        )
}

proof fn lemma_planned(
    action: Seq<char>,
    input: &BrowserInput,
    window_id: Option<i64>,
    r: Result<HwatuPlan, ActionError>,
) -> (places: (Seq<char>, Seq<char>))
    requires
        is_planned(action, input, window_id, r),
    ensures
        hwatu_action::is_action_plan(r, action, *input, window_id, places.0, places.1),
{
    let (name, preference, target) = choose|name: &str, preference: Option<&str>, target: &str|
        name@ == action && #[trigger] call_ensures(
            plan_hwatu_action,
            (name, input, window_id, preference, target),
            r,
        );
    (hwatu_action::mode_of(input.focus, text::opt_str_view(preference)), target@)
}

/// A click goes to a point where both coordinates are given. Else it goes to the element
/// that is looked up by the selector and the text, each in JSON notation, and `null` for
/// the one that is not given. Where neither is given, nor a horizontal coordinate, it is
/// refused.
pub proof fn a_click_looks_up_what_was_given(
    input: &BrowserInput,
    window_id: Option<i64>,
    r: Result<HwatuPlan, ActionError>,
)
    requires
        call_ensures(plan_click, (input, window_id), r) || is_planned(
            "click"@,
            input,
            window_id,
            r,
        ),
    ensures
        input.selector is None && input.text is None && input.x is None ==> is_refused(
            r,
            "click requires selector, text, or x/y coordinates"@,
        ),
        input.x is Some && input.y is Some ==> runs_script(
            r,
            window_id,
            "const el = document.elementFromPoint("@ + input.x->0@ + ", "@ + input.y->0@
                + ");\nif (!el) throw new Error('no element at ("@ + input.x->0@ + ", "@
                + input.y->0@ + CLICK_POINT_TAIL@,
            input.timeout_ms,
            Finish::ShowValue,
        ),
        !(input.x is Some && input.y is Some) && (input.selector is Some || input.text is Some
            || input.x is Some) ==> runs_script(
            r,
            window_id,
            JS_HELPERS@ + "\nconst el = findEl("@ + (if input.selector is Some {
                json::json_quoted(input.selector->0@)
            } else {
                "null"@
            }) + ", "@ + (if input.text is Some {
                json::json_quoted(input.text->0@)
            } else {
                "null"@
            }) + CLICK_TAIL@,
            input.timeout_ms,
            Finish::ShowValue,
        ),
{
    lemma_names();
    if !call_ensures(plan_click, (input, window_id), r) {
        let places = lemma_planned("click"@, input, window_id, r);
    }
    if input.x is Some && input.y is Some {
        let js = hwatu_scripts::click_point_script(input.x->0@, input.y->0@);
        lemma_runs(r, window_id, js, input.timeout_ms, Finish::ShowValue);
    } else if input.selector is Some || input.text is Some || input.x is Some {
        let js = hwatu_scripts::click_script(notation(input.selector), notation(input.text));
        lemma_runs(r, window_id, js, input.timeout_ms, Finish::ShowValue);
    }
}

/// Typing takes a text. It goes to the element of the selector, or to the focused one
/// where there is none, behind what stands there unless that is to be cleared, and the
/// form is submitted where that was asked for.
pub proof fn typing_goes_to_the_selected_element(
    input: &BrowserInput,
    window_id: Option<i64>,
    r: Result<HwatuPlan, ActionError>,
)
    requires
        call_ensures(plan_type, (input, window_id), r) || is_planned(
            "type"@,
            input,
            window_id,
            r,
        ),
    ensures
        input.text is None ==> is_refused(r, "text is required for type"@),
        input.text is Some ==> runs_script(
            r,
            window_id,
            JS_HELPERS@ + "\nconst el = "@ + notation(input.selector) + " ? findEl("@ + notation(
                input.selector,
            ) + TYPE_FOCUS@ + flag_word(input.clear)
                + " ? '' : (el.value || '');\nsetValue(el, current + "@ + json::json_quoted(
                input.text->0@,
            ) + ");\nif ("@ + flag_word(input.submit) + TYPE_TAIL@,
            input.timeout_ms,
            Finish::ShowValue,
        ),
{
    lemma_names();
    if !call_ensures(plan_type, (input, window_id), r) {
        let places = lemma_planned("type"@, input, window_id, r);
    }
    if input.text is Some {
        let js = hwatu_scripts::type_script(
            notation(input.selector),
            flag_word(input.clear),
            json::json_quoted(input.text->0@),
            flag_word(input.submit),
        );
        lemma_runs(r, window_id, js, input.timeout_ms, Finish::ShowValue);
    }
}

/// Whether a document says of one form field what is given: its selector, and its value
/// and whether it is checked, each null where it is not given.
pub open spec fn is_field(v: Value, field: FormField) -> bool {
    &&& carries(v, "selector"@, JsonView::Text(field.selector@))
    &&& carries(
        v,
        "value"@,
        if field.value is Some {
            JsonView::Text(field.value->0@)
        } else {
            JsonView::Null
        },
    )
    &&& carries(
        v,
        "checked"@,
        if field.checked is Some {
            JsonView::Bool(field.checked->0)
        } else {
            JsonView::Null
        },
    )
    &&& carries_only(v, seq!["selector"@, "value"@, "checked"@])
}

/// Whether a script is run that fills in the fields of an array.
pub open spec fn runs_filling(
    r: Result<HwatuPlan, ActionError>,
    v: Value,
    window_id: Option<i64>,
    timeout_ms: Option<u64>,
) -> bool {
    runs_script(
        r,
        window_id,
        JS_HELPERS@ + "\nconst fields = "@ + json::json_compact(v) + FILL_TAIL@,
        timeout_ms,
        Finish::ShowValue,
    )
}

/// A form is filled in with all of the fields that are given, in their order, and with
/// no others.
pub proof fn a_form_is_filled_with_its_fields(
    input: &BrowserInput,
    window_id: Option<i64>,
    r: Result<HwatuPlan, ActionError>,
)
    requires
        call_ensures(plan_fill_form, (input, window_id), r) || is_planned(
            "fill_form"@,
            input,
            window_id,
            r,
        ),
    ensures
        input.fields is None ==> is_refused(r, "fields are required for fill_form"@),
        input.fields is Some ==> exists|v: Value| #[trigger]
            runs_filling(r, v, window_id, input.timeout_ms) && json::json_view(v) is Array
                && json::json_view(v)->Array_0.len() == input.fields->0@.len() && forall|i: int|
                0 <= i < input.fields->0@.len() ==> is_field(
                    #[trigger] json::json_view(v)->Array_0[i],
                    input.fields->0@[i],
                ),
{
    lemma_names();
    if !call_ensures(plan_fill_form, (input, window_id), r) {
        let places = lemma_planned("fill_form"@, input, window_id, r);
    }
    if input.fields is Some {
        let fields = input.fields->0@;
        let v = choose|v: Value| #[trigger]
            hwatu_action::is_field_array(v, fields) && hwatu_action::fills(
                r,
                v,
                window_id,
                input.timeout_ms,
            );
        let js = hwatu_scripts::fill_script(json::json_compact(v));
        lemma_runs(r, window_id, js, input.timeout_ms, Finish::ShowValue);
        assert(runs_filling(r, v, window_id, input.timeout_ms));
        assert forall|i: int| 0 <= i < fields.len() implies is_field(
            #[trigger] json::json_view(v)->Array_0[i],
            fields[i],
        ) by {
            lemma_field(json::json_view(v)->Array_0[i], fields[i]);
        }
    }
}

proof fn lemma_field(v: Value, field: FormField)
    requires
        json::object_fields(v) == hwatu_action::field_fields(field),
    ensures
        is_field(v, field),
{
    lemma_keys();
    assert(json::object_fields(v).contains_key("selector"@));
    assert(json::json_view(v) is Object);
    lemma_fields(v, "selector"@);
    lemma_fields(v, "value"@);
    lemma_fields(v, "checked"@);
    let keys = seq!["selector"@, "value"@, "checked"@];
    assert(keys[0] == "selector"@ && keys[1] == "value"@ && keys[2] == "checked"@);
    assert forall|key: Seq<char>| #[trigger]
        json::json_view(v)->Object_0.contains_key(key) implies keys.contains(key) by {
        lemma_fields(v, key);
    }
}

/// A choice takes a selector and a text, and sets the one field of that selector to that
/// text.
pub proof fn a_choice_sets_one_field(
    input: &BrowserInput,
    window_id: Option<i64>,
    r: Result<HwatuPlan, ActionError>,
)
    requires
        call_ensures(plan_select, (input, window_id), r) || is_planned(
            "select"@,
            input,
            window_id,
            r,
        ),
    ensures
        input.selector is None ==> is_refused(r, "selector is required for select"@),
        input.selector is Some && input.text is None ==> is_refused(
            r,
            "text is required for select (used as the option value)"@,
        ),
        input.selector is Some && input.text is Some ==> exists|v: Value| #[trigger]
            runs_filling(r, v, window_id, input.timeout_ms) && json::json_view(v) is Array
                && json::json_view(v)->Array_0.len() == 1 && carries(
                json::json_view(v)->Array_0[0],
                "selector"@,
                JsonView::Text(input.selector->0@),
            ) && carries(
                json::json_view(v)->Array_0[0],
                "value"@,
                JsonView::Text(input.text->0@),
            ) && carries_only(json::json_view(v)->Array_0[0], seq!["selector"@, "value"@]),
{
    lemma_names();
    if !call_ensures(plan_select, (input, window_id), r) {
        let places = lemma_planned("select"@, input, window_id, r);
    }
    if input.selector is Some && input.text is Some {
        let v = choose|v: Value| #[trigger]
            hwatu_action::is_choice_array(v, input.selector->0@, input.text->0@)
                && hwatu_action::fills(r, v, window_id, input.timeout_ms);
        let js = hwatu_scripts::fill_script(json::json_compact(v));
        lemma_runs(r, window_id, js, input.timeout_ms, Finish::ShowValue);
        assert(runs_filling(r, v, window_id, input.timeout_ms));
        let item = json::json_view(v)->Array_0[0];
        lemma_keys();
        assert(json::object_fields(item).contains_key("selector"@));
        assert(json::json_view(item) is Object);
        lemma_fields(item, "selector"@);
        lemma_fields(item, "value"@);
        let keys = seq!["selector"@, "value"@];
        assert(keys[0] == "selector"@ && keys[1] == "value"@);
        assert forall|key: Seq<char>| #[trigger]
            json::json_view(item)->Object_0.contains_key(key) implies keys.contains(key) by {
            lemma_fields(item, key);
        }
    }
}

/// A wait looks for the selector, and for the text that the page is to contain: the one
/// given as such, or else the text. It lasts ten seconds unless another time is given,
/// and the daemon gets two seconds more.
pub proof fn a_wait_looks_for_what_was_given(
    input: &BrowserInput,
    window_id: Option<i64>,
    r: Result<HwatuPlan, ActionError>,
)
    requires
        call_ensures(plan_wait, (input, window_id), r) || is_planned(
            "wait"@,
            input,
            window_id,
            r,
        ),
        input.timeout_ms is Some ==> input.timeout_ms->0 <= u64::MAX - 2_000,
    ensures
        input.selector is None && input.text is None && input.contains is None ==> is_refused(
            r,
            "wait requires selector, text, or contains"@,
        ),
        input.selector is Some || input.text is Some || input.contains is Some ==> ({
            let lasts = if input.timeout_ms is Some {
                input.timeout_ms->0
            } else {
                10_000u64
            };
            runs_script(
                r,
                window_id,
                "const deadline = Date.now() + "@ + text::decimal(lasts as nat)
                    + ";\nconst selector = "@ + notation(input.selector) + ";\nconst needle = "@ + (
                if input.contains is Some {
                    notation(input.contains)
                } else {
                    notation(input.text)
                }) + WAIT_LOOP@ + text::decimal(lasts as nat) + " ms');"@,
                Some((lasts + 2_000) as u64),
                Finish::ShowValue,
            )
        }),
{
    lemma_names();
    if !call_ensures(plan_wait, (input, window_id), r) {
        let places = lemma_planned("wait"@, input, window_id, r);
    }
    if input.selector is Some || input.text is Some || input.contains is Some {
        let lasts = if input.timeout_ms is Some {
            input.timeout_ms->0
        } else {
            10_000u64
        };
        let js = hwatu_scripts::wait_script(
            text::decimal(lasts as nat),
            notation(input.selector),
            if input.contains is Some {
                notation(input.contains)
            } else {
                notation(input.text)
            },
        );
        lemma_runs(r, window_id, js, Some((lasts + 2_000) as u64), Finish::ShowValue);
    }
}

/// The number that is given, or nought.
pub open spec fn number_or_nought(n: Option<String>) -> Seq<char> {
    if n is Some {
        n->0@
    } else {
        "0"@
    }
}

/// Scrolling goes to a named position before anything else, then to what a selector
/// matches, to a place, and by a distance, with nought for the coordinate that is not
/// given. Without any of these, or to an unknown position, it is refused.
pub proof fn scrolling_goes_where_it_is_told(
    input: &BrowserInput,
    window_id: Option<i64>,
    r: Result<HwatuPlan, ActionError>,
)
    requires
        call_ensures(plan_scroll, (input, window_id), r) || is_planned(
            "scroll"@,
            input,
            window_id,
            r,
        ),
    ensures
        input.position is Some && input.position->0@ == "top"@ ==> runs_script(
            r,
            window_id,
            REPORT_SCROLL@ + "\nwindow.scrollTo({top: 0});\nreturn reportScroll();"@,
            input.timeout_ms,
            Finish::ShowValue,
        ),
        input.position is Some && input.position->0@ == "bottom"@ ==> runs_script(
            r,
            window_id,
            REPORT_SCROLL@
                + "\nwindow.scrollTo({top: document.documentElement.scrollHeight});\nreturn reportScroll();"@,
            input.timeout_ms,
            Finish::ShowValue,
        ),
        input.position is Some && input.position->0@ != "top"@ && input.position->0@ != "bottom"@
            ==> is_refused(r, "unsupported scroll position: "@ + input.position->0@),
        input.position is None && input.selector is Some ==> runs_script(
            r,
            window_id,
            REPORT_SCROLL@ + "\nconst selector = "@ + json::json_quoted(input.selector->0@)
                + ";\nconst contains = "@ + notation(input.contains) + SCROLL_MATCH_TAIL@,
            input.timeout_ms,
            Finish::ShowValue,
        ),
        input.position is None && input.selector is None && input.scroll_to is Some ==> runs_script(
            r,
            window_id,
            REPORT_SCROLL@ + "\nwindow.scrollTo({left: "@ + number_or_nought(
                input.scroll_to->0.x,
            ) + ", top: "@ + number_or_nought(input.scroll_to->0.y)
                + "});\nreturn reportScroll();"@,
            input.timeout_ms,
            Finish::ShowValue,
        ),
        input.position is None && input.selector is None && input.scroll_to is None && (
        input.x is Some || input.y is Some) ==> runs_script(
            r,
            window_id,
            REPORT_SCROLL@ + "\nwindow.scrollBy({left: "@ + number_or_nought(input.x) + ", top: "@
                + number_or_nought(input.y) + "});\nreturn reportScroll();"@,
            input.timeout_ms,
            Finish::ShowValue,
        ),
        input.position is None && input.selector is None && input.scroll_to is None
            && input.x is None && input.y is None ==> is_refused(
            r,
            "scroll requires x/y, selector, position, or scroll_to"@,
        ),
{
    lemma_names();
    reveal_strlit("top");
    reveal_strlit("bottom");
    assert("top"@.len() != "bottom"@.len());
    if !call_ensures(plan_scroll, (input, window_id), r) {
        let places = lemma_planned("scroll"@, input, window_id, r);
    }
    assert forall|js: Seq<char>| #[trigger]
        hwatu_action::runs(r, window_id, js, input.timeout_ms, Finish::ShowValue) implies runs_script(
        r,
        window_id,
        js,
        input.timeout_ms,
        Finish::ShowValue,
    ) by {
        lemma_runs(r, window_id, js, input.timeout_ms, Finish::ShowValue);
    }
}

/// The caller's own script is run as it is, and without one the action is refused.
pub proof fn a_script_is_run_as_it_is(
    input: &BrowserInput,
    window_id: Option<i64>,
    r: Result<HwatuPlan, ActionError>,
)
    requires
        call_ensures(plan_eval, (input, window_id), r) || is_planned(
            "eval"@,
            input,
            window_id,
            r,
        ),
    ensures
        input.script is None ==> is_refused(r, "script is required for eval"@),
        input.script is Some ==> runs_script(
            r,
            window_id,
            input.script->0@,
            input.timeout_ms,
            Finish::Eval,
        ),
{
    lemma_names();
    if !call_ensures(plan_eval, (input, window_id), r) {
        let places = lemma_planned("eval"@, input, window_id, r);
    }
    if input.script is Some {
        lemma_runs(r, window_id, input.script->0@, input.timeout_ms, Finish::Eval);
    }
}

/// A page is read as markup or as its title where that format is asked for, else as text;
/// a snapshot is always text.
pub proof fn a_page_is_read_in_its_format(
    input: &BrowserInput,
    window_id: Option<i64>,
    snapshot: bool,
    r: Result<HwatuPlan, ActionError>,
)
    requires
        call_ensures(plan_content, (input, window_id, snapshot), r) || is_planned(
            if snapshot {
                "snapshot"@
            } else {
                "get_content"@
            },
            input,
            window_id,
            r,
        ),
    ensures
        ({
            let formatted = !snapshot && input.format is Some;
            runs_script(
                r,
                window_id,
                if formatted && input.format->0@ == "html"@ {
                    PAGE_HTML@
                } else if formatted && input.format->0@ == "title"@ {
                    PAGE_TITLE@
                } else {
                    PAGE_TEXT@
                },
                input.timeout_ms,
                Finish::Content,
            )
        }),
{
    lemma_names();
    reveal_strlit("html");
    reveal_strlit("title");
    reveal_strlit("text");
    assert("html"@.len() == 4 && "title"@.len() == 5 && "text"@[0] == 't' && "html"@[0] == 'h');
    if !call_ensures(plan_content, (input, window_id, snapshot), r) {
        let places = lemma_planned(
            if snapshot {
                "snapshot"@
            } else {
                "get_content"@
            },
            input,
            window_id,
            r,
        );
    }
    assert forall|js: Seq<char>| #[trigger]
        hwatu_action::runs(r, window_id, js, input.timeout_ms, Finish::Content) implies runs_script(
        r,
        window_id,
        js,
        input.timeout_ms,
        Finish::Content,
    ) by {
        lemma_runs(r, window_id, js, input.timeout_ms, Finish::Content);
    }
}

/// Elements and frames are listed by their scripts; a key is pressed with what was given
/// for it; a script that presses a key is run as it is.
pub proof fn lists_and_keys_have_their_scripts(
    input: &BrowserInput,
    window_id: Option<i64>,
    elements: Result<HwatuPlan, ActionError>,
    frames: Result<HwatuPlan, ActionError>,
    press: Result<HwatuPlan, ActionError>,
    script: &str,
    pressed: Result<HwatuPlan, ActionError>,
)
    requires
        is_planned("interactables"@, input, window_id, elements),
        is_planned("list_frames"@, input, window_id, frames),
        is_planned("press"@, input, window_id, press),
        call_ensures(plan_press_script, (script, input, window_id), pressed),
    ensures
        runs_script(
            elements,
            window_id,
            JS_HELPERS@ + INTERACTABLES@,
            input.timeout_ms,
            Finish::Interactables,
        ),
        runs_script(frames, window_id, LIST_FRAMES@, input.timeout_ms, Finish::ShowValue),
        press is Ok && press->Ok_0 is Press && press->Ok_0->key == input.key
            && press->Ok_0->selector == input.selector,
        runs_script(pressed, window_id, script@, input.timeout_ms, Finish::ShowValue),
{
    lemma_names();
    let a = lemma_planned("interactables"@, input, window_id, elements);
    let b = lemma_planned("list_frames"@, input, window_id, frames);
    let c = lemma_planned("press"@, input, window_id, press);
    lemma_runs(
        elements,
        window_id,
        hwatu_scripts::interactables_script(),
        input.timeout_ms,
        Finish::Interactables,
    );
    lemma_runs(frames, window_id, LIST_FRAMES@, input.timeout_ms, Finish::ShowValue);
    lemma_runs(pressed, window_id, script@, input.timeout_ms, Finish::ShowValue);
}

/// The mode of a new window is normal where focus is asked for, else the one that is
/// preferred, if it is `background` or `normal`, and headless otherwise.
pub proof fn a_window_opens_in_the_preferred_mode(
    focus: Option<bool>,
    preference: Option<&str>,
    r: &'static str,
)
    requires
        call_ensures(open_mode, (focus, preference), r),
    ensures
        focus == Some(true) ==> r@ == "normal"@,
        focus != Some(true) && preference is None ==> r@ == "headless"@,
        focus != Some(true) && preference is Some && preference->0@ == "normal"@ ==> r@
            == "normal"@,
        focus != Some(true) && preference is Some && preference->0@ == "background"@ ==> r@
            == "background"@,
        focus != Some(true) && preference is Some && preference->0@ != "background"@
            && preference->0@ != "normal"@ ==> r@ == "headless"@,
{
    reveal_strlit("normal");
    reveal_strlit("background");
    assert("normal"@.len() != "background"@.len());
}

proof fn lemma_carries_only(request: Value, keys: Seq<Seq<char>>)
    requires
        json::json_view(request) is Object,
        forall|key: Seq<char>| #[trigger]
            json::object_fields(request).contains_key(key) ==> keys.contains(key),
    ensures
        carries_only(request, keys),
{
    assert forall|key: Seq<char>| #[trigger]
        json::json_view(request)->Object_0.contains_key(key) implies keys.contains(key) by {
        lemma_fields(request, key);
    }
}

/// Opening takes an address. Where the session has no window, or asks for a new one, it
/// opens one there in the given mode; else it navigates its own window, and waits for it
/// unless that is declined.
pub proof fn opening_goes_to_the_address(
    input: &BrowserInput,
    window_id: Option<i64>,
    mode: &str,
    r: Result<HwatuPlan, ActionError>,
)
    requires
        call_ensures(plan_open, (input, window_id, mode), r),
    ensures
        opens(input, window_id, mode@, r),
{
    lemma_opens(input, window_id, mode@, r);
}

/// Whether a plan opens the address that is given, as told.
pub open spec fn opens(
    input: &BrowserInput,
    window_id: Option<i64>,
    mode: Seq<char>,
    r: Result<HwatuPlan, ActionError>,
) -> bool {
    let request = r->Ok_0->request;
    if input.url is None {
        is_refused(r, "url is required for open"@)
    } else {
        &&& r is Ok && r->Ok_0 is Send && r->Ok_0->finish is Opened && r->Ok_0->finish->Opened_0@
            == input.url->0@
        &&& carries(request, "url"@, JsonView::Text(input.url->0@))
        &&& if window_id is None || input.new_tab == Some(true) {
            &&& carries(request, "cmd"@, JsonView::Text("open"@))
            &&& carries(request, "mode"@, JsonView::Text(mode))
            &&& carries_only(request, seq!["cmd"@, "url"@, "mode"@])
        } else {
            &&& carries(request, "cmd"@, JsonView::Text("navigate"@))
            &&& carries(request, "wait"@, JsonView::Bool(input.wait != Some(false)))
            &&& carries(request, "id"@, JsonView::Integer(window_id->0 as int))
            &&& carries_number(request, "timeout_ms"@, time(input.timeout_ms))
            &&& carries_only(request, seq!["cmd"@, "url"@, "wait"@, "id"@, "timeout_ms"@])
        }
    }
}

proof fn lemma_opens(
    input: &BrowserInput,
    window_id: Option<i64>,
    mode: Seq<char>,
    r: Result<HwatuPlan, ActionError>,
)
    requires
        hwatu_action::is_open_plan(r, *input, window_id, mode),
    ensures
        opens(input, window_id, mode, r),
{
    if input.url is Some {
        lemma_keys();
        let request = r->Ok_0->request;
        lemma_fields(request, "cmd"@);
        lemma_fields(request, "url"@);
        lemma_fields(request, "mode"@);
        lemma_fields(request, "wait"@);
        lemma_fields(request, "id"@);
        lemma_fields(request, "timeout_ms"@);
        let new = seq!["cmd"@, "url"@, "mode"@];
        assert(new[0] == "cmd"@ && new[1] == "url"@ && new[2] == "mode"@);
        let own = seq!["cmd"@, "url"@, "wait"@, "id"@, "timeout_ms"@];
        assert(own[0] == "cmd"@ && own[1] == "url"@ && own[2] == "wait"@ && own[3] == "id"@
            && own[4] == "timeout_ms"@);
        if window_id is None || input.new_tab == Some(true) {
            lemma_carries_only(request, new);
        } else {
            lemma_carries_only(request, own);
        }
    }
}

/// Whether a plan opens a new window in the given mode, at the address if one is given.
pub open spec fn opens_new(
    input: &BrowserInput,
    mode: Seq<char>,
    r: Result<HwatuPlan, ActionError>,
) -> bool {
    let request = r->Ok_0->request;
    &&& is_sent(r, Finish::NewTab)
    &&& carries(request, "cmd"@, JsonView::Text("open"@))
    &&& carries(request, "mode"@, JsonView::Text(mode))
    &&& input.url is Some ==> carries(request, "url"@, JsonView::Text(input.url->0@))
    &&& input.url is None ==> carries_only(request, seq!["cmd"@, "mode"@])
    &&& carries_only(request, seq!["cmd"@, "mode"@, "url"@])
}

proof fn lemma_opens_new(
    input: &BrowserInput,
    mode: Seq<char>,
    r: Result<HwatuPlan, ActionError>,
)
    requires
        hwatu_action::is_new_tab_plan(r, *input, mode),
    ensures
        opens_new(input, mode, r),
{
    lemma_keys();
    let request = r->Ok_0->request;
    lemma_fields(request, "cmd"@);
    lemma_fields(request, "mode"@);
    lemma_fields(request, "url"@);
    let two = seq!["cmd"@, "mode"@];
    assert(two[0] == "cmd"@ && two[1] == "mode"@);
    let three = seq!["cmd"@, "mode"@, "url"@];
    assert(three[0] == "cmd"@ && three[1] == "mode"@ && three[2] == "url"@);
    if input.url is None {
        lemma_carries_only(request, two);
    }
    lemma_carries_only(request, three);
}

/// A new window is opened in the given mode, at the address if one is given.
pub proof fn a_new_window_is_opened(
    input: &BrowserInput,
    mode: &str,
    r: Result<HwatuPlan, ActionError>,
)
    requires
        call_ensures(plan_new_tab, (input, mode), r),
    ensures
        opens_new(input, mode@, r),
{
    lemma_opens_new(input, mode@, r);
}

/// The actions that open windows open them in the mode that the focus and the preference
/// make.
pub proof fn windows_are_opened_in_their_mode(
    name: &str,
    input: &BrowserInput,
    window_id: Option<i64>,
    preference: Option<&str>,
    target: &str,
    mode: &'static str,
    r: Result<HwatuPlan, ActionError>,
)
    requires
        call_ensures(plan_hwatu_action, (name, input, window_id, preference, target), r),
        call_ensures(open_mode, (input.focus, preference), mode),
    ensures
        name@ == "open"@ ==> opens(input, window_id, mode@, r),
        name@ == "new_tab"@ ==> opens_new(input, mode@, r),
        name@ == "screenshot"@ ==> takes_image(window_id, target@, r),
{
    lemma_names();
    if name@ == "open"@ {
        lemma_opens(input, window_id, mode@, r);
    }
    if name@ == "new_tab"@ {
        lemma_opens_new(input, mode@, r);
    }
    if name@ == "screenshot"@ {
        lemma_takes_image(window_id, target@, r);
    }
}

/// Whether a plan has an image of the window taken into a file.
pub open spec fn takes_image(
    window_id: Option<i64>,
    target: Seq<char>,
    r: Result<HwatuPlan, ActionError>,
) -> bool {
    let request = r->Ok_0->request;
    &&& r is Ok && r->Ok_0 is Send && r->Ok_0->finish is Screenshot
        && r->Ok_0->finish->Screenshot_0@ == target
    &&& carries(request, "cmd"@, JsonView::Text("screenshot"@))
    &&& carries(request, "path"@, JsonView::Text(target))
    &&& carries_number(request, "id"@, number(window_id))
    &&& carries_only(request, seq!["cmd"@, "path"@, "id"@])
}

proof fn lemma_takes_image(
    window_id: Option<i64>,
    target: Seq<char>,
    r: Result<HwatuPlan, ActionError>,
)
    requires
        hwatu_action::is_screenshot_plan(r, window_id, target),
    ensures
        takes_image(window_id, target, r),
{
    lemma_keys();
    let request = r->Ok_0->request;
    lemma_fields(request, "cmd"@);
    lemma_fields(request, "path"@);
    lemma_fields(request, "id"@);
    let keys = seq!["cmd"@, "path"@, "id"@];
    assert(keys[0] == "cmd"@ && keys[1] == "path"@ && keys[2] == "id"@);
    lemma_carries_only(request, keys);
}

/// An image is taken of the window, into the file.
pub proof fn an_image_is_taken_into_the_file(
    window_id: Option<i64>,
    target: &str,
    r: Result<HwatuPlan, ActionError>,
)
    requires
        call_ensures(plan_screenshot, (window_id, target), r),
    ensures
        takes_image(window_id, target@, r),
{
    lemma_takes_image(window_id, target@, r);
}

/// The file of an image is named after the time, nought where the clock is before the
/// epoch.
pub proof fn images_are_named_after_the_time(since_epoch_ms: Option<u128>, r: String)
    requires
        call_ensures(screenshot_name, (since_epoch_ms,), r),
    ensures
        since_epoch_ms is Some ==> r@ == "jcode-hwatu-"@ + text::decimal(since_epoch_ms->0 as nat)
            + ".png"@,
        since_epoch_ms is None ==> r@ == "jcode-hwatu-"@ + seq!['0'] + ".png"@,
{
    assert(text::decimal(0) == seq!['0']);
}

/// The window that is selected is that of the tab's id, or else that of the window's;
/// without either the action is refused.
pub proof fn the_selected_window_is_focused(
    input: &BrowserInput,
    window_id: Option<i64>,
    r: Result<HwatuPlan, ActionError>,
)
    requires
        call_ensures(plan_select_tab, (input,), r) || is_planned(
            "select_tab"@,
            input,
            window_id,
            r,
        ),
    ensures
        input.tab_id is None && input.window_id is None ==> is_refused(
            r,
            "tab_id is required for select_tab"@,
        ),
        input.tab_id is Some || input.window_id is Some ==> ({
            let id = if input.tab_id is Some {
                input.tab_id->0
            } else {
                input.window_id->0
            };
            &&& is_sent(r, Finish::Focused(id))
            &&& carries(r->Ok_0->request, "cmd"@, JsonView::Text("focus"@))
            &&& carries(r->Ok_0->request, "id"@, JsonView::Integer(id as int))
            &&& carries_only(r->Ok_0->request, seq!["cmd"@, "id"@])
        }),
{
    lemma_names();
    lemma_keys();
    if !call_ensures(plan_select_tab, (input,), r) {
        let places = lemma_planned("select_tab"@, input, window_id, r);
    }
    if input.tab_id is Some || input.window_id is Some {
        let request = r->Ok_0->request;
        lemma_fields(request, "cmd"@);
        lemma_fields(request, "id"@);
        let keys = seq!["cmd"@, "id"@];
        assert(keys[0] == "cmd"@ && keys[1] == "id"@);
        lemma_carries_only(request, keys);
    }
}

/// The list of windows is asked for to show it, and to show the active one; other names
/// than those of actions are refused.
pub proof fn lists_are_asked_for_and_other_names_refused(
    input: &BrowserInput,
    window_id: Option<i64>,
    all: Result<HwatuPlan, ActionError>,
    active: Result<HwatuPlan, ActionError>,
    name: &str,
    preference: Option<&str>,
    target: &str,
    other: Result<HwatuPlan, ActionError>,
)
    requires
        is_planned("list_tabs"@, input, window_id, all),
        is_planned("get_active_tab"@, input, window_id, active),
        call_ensures(plan_hwatu_action, (name, input, window_id, preference, target), other),
        !hwatu_action::acts_on_a_window(name@),
        name@ != "open"@ && name@ != "list_tabs"@ && name@ != "get_active_tab"@ && name@
            != "new_tab"@ && name@ != "select_tab"@ && name@ != "press"@ && name@
            != "provider_command"@,
    ensures
        is_sent(all, Finish::ListTabs) && carries(
            all->Ok_0->request,
            "cmd"@,
            JsonView::Text("list"@),
        ) && carries_only(all->Ok_0->request, seq!["cmd"@]),
        is_sent(active, Finish::ActiveTab) && carries(
            active->Ok_0->request,
            "cmd"@,
            JsonView::Text("list"@),
        ) && carries_only(active->Ok_0->request, seq!["cmd"@]),
        is_refused(other, "Unsupported browser action for hwatu backend: "@ + name@),
{
    lemma_names();
    let a = lemma_planned("list_tabs"@, input, window_id, all);
    let b = lemma_planned("get_active_tab"@, input, window_id, active);
    let keys = seq!["cmd"@];
    assert(keys[0] == "cmd"@);
    lemma_fields(all->Ok_0->request, "cmd"@);
    lemma_fields(active->Ok_0->request, "cmd"@);
    lemma_carries_only(all->Ok_0->request, keys);
    lemma_carries_only(active->Ok_0->request, keys);
}

/// A command for the daemon takes a name. It is sent with the parameters that are given,
/// as far as they are an object, and with nothing but that name as the command.
pub proof fn a_command_is_passed_on_with_its_parameters(
    input: &BrowserInput,
    window_id: Option<i64>,
    r: Result<HwatuPlan, ActionError>,
    key: Seq<char>,
)
    requires
        call_ensures(plan_provider_command, (input,), r) || is_planned(
            "provider_command"@,
            input,
            window_id,
            r,
        ),
    ensures
        input.provider_action is None ==> is_refused(
            r,
            "provider_action is required when action='provider_command'"@,
        ),
        input.provider_action is Some ==> ({
            let request = r->Ok_0->request;
            let given = input.params is Some && json::json_view(input.params->0) is Object;
            let params = json::json_view(input.params->0)->Object_0;
            &&& is_sent(r, Finish::Response)
            &&& carries(request, "cmd"@, JsonView::Text(input.provider_action->0@))
            &&& key != "cmd"@ && given && params.contains_key(key) ==> json::json_view(
                request,
            )->Object_0.contains_key(key) && json::json_view(request)->Object_0[key] == params[key]
            &&& key != "cmd"@ && (!given || !params.contains_key(key)) ==> !json::json_view(
                request,
            )->Object_0.contains_key(key)
        }),
{
    lemma_names();
    if !call_ensures(plan_provider_command, (input,), r) {
        let places = lemma_planned("provider_command"@, input, window_id, r);
    }
    if input.provider_action is Some {
        let request = r->Ok_0->request;
        let params = match input.params {
            Some(v) => json::members_in(v),
            None => json::no_members(),
        };
        let sent = json::members_in(request);
        if key != "cmd"@ {
            assert(sent.remove("cmd"@).contains_key(key) == sent.contains_key(key));
            assert(params.remove("cmd"@).contains_key(key) == params.contains_key(key));
            if sent.contains_key(key) {
                assert(sent.remove("cmd"@)[key] == sent[key]);
                assert(params.remove("cmd"@)[key] == params[key]);
            }
        }
    }
}

/// An upload takes a path, and goes to the element of the selector, or to the page's file
/// input where none is given.
pub proof fn an_upload_goes_to_the_selected_input(
    input: &BrowserInput,
    window_id: Option<i64>,
    r: Result<HwatuPlan, ActionError>,
)
    requires
        call_ensures(plan_upload, (input, window_id), r) || is_planned(
            "upload"@,
            input,
            window_id,
            r,
        ),
    ensures
        input.path is None ==> is_refused(r, "path is required for upload"@),
        input.path is Some ==> ({
            let request = r->Ok_0->request;
            &&& is_sent(r, Finish::ShowValue)
            &&& carries(request, "cmd"@, JsonView::Text("upload"@))
            &&& carries(
                request,
                "selector"@,
                JsonView::Text(
                    if input.selector is Some {
                        input.selector->0@
                    } else {
                        "input[type=file]"@
                    },
                ),
            )
            &&& carries(request, "path"@, JsonView::Text(input.path->0@))
            &&& carries_number(request, "id"@, number(window_id))
            &&& carries_number(request, "timeout_ms"@, time(input.timeout_ms))
            &&& carries_only(request, seq!["cmd"@, "selector"@, "path"@, "id"@, "timeout_ms"@])
        }),
{
    lemma_names();
    lemma_keys();
    if !call_ensures(plan_upload, (input, window_id), r) {
        let places = lemma_planned("upload"@, input, window_id, r);
    }
    if input.path is Some {
        let request = r->Ok_0->request;
        lemma_fields(request, "cmd"@);
        lemma_fields(request, "selector"@);
        lemma_fields(request, "path"@);
        lemma_fields(request, "id"@);
        lemma_fields(request, "timeout_ms"@);
        let keys = seq!["cmd"@, "selector"@, "path"@, "id"@, "timeout_ms"@];
        assert(keys[0] == "cmd"@ && keys[1] == "selector"@ && keys[2] == "path"@ && keys[3] == "id"@
            && keys[4] == "timeout_ms"@);
        lemma_carries_only(request, keys);
    }
}

/// The plain requests carry their commands and nothing else.
pub proof fn plain_requests_carry_their_commands(ping: Value, list: Value)
    requires
        call_ensures(hwatu::ping_request, (), ping),
        call_ensures(hwatu::list_request, (), list),
    ensures
        carries(ping, "cmd"@, JsonView::Text("ping"@)) && carries_only(ping, seq!["cmd"@]),
        carries(list, "cmd"@, JsonView::Text("list"@)) && carries_only(list, seq!["cmd"@]),
{
    let keys = seq!["cmd"@];
    assert(keys[0] == "cmd"@);
    lemma_fields(ping, "cmd"@);
    lemma_fields(list, "cmd"@);
    lemma_carries_only(ping, keys);
    lemma_carries_only(list, keys);
}

/// A script is sent to run in the window that is given, with the time that is given.
pub proof fn a_script_is_sent_to_its_window(
    window_id: Option<i64>,
    js: &str,
    timeout_ms: Option<u64>,
    r: Value,
)
    requires
        call_ensures(hwatu::eval_request, (window_id, js, timeout_ms), r),
    ensures
        carries(r, "cmd"@, JsonView::Text("eval"@)),
        carries(r, "js"@, JsonView::Text(js@)),
        carries_number(r, "id"@, number(window_id)),
        carries_number(r, "timeout_ms"@, time(timeout_ms)),
        carries_only(r, seq!["cmd"@, "js"@, "id"@, "timeout_ms"@]),
{
    let plan: Result<HwatuPlan, ActionError> = Ok(
        HwatuPlan::Send { request: r, finish: Finish::Eval },
    );
    lemma_runs(plan, window_id, js@, timeout_ms, Finish::Eval);
}

// ---------------------------------------------------------------------------
// The window of a session
// ---------------------------------------------------------------------------

/// An explicit window comes first, then an explicit tab. Without either it is the
/// session's own window, if it has one, as long as that is open; the daemon chooses where
/// it has none.
pub proof fn explicit_windows_come_first(
    session: &SessionWindow,
    window_id: Option<i64>,
    tab_id: Option<i64>,
    r: WindowChoice,
)
    requires
        call_ensures(SessionWindow::choose_window, (session, window_id, tab_id), r),
    ensures
        window_id is Some ==> r == WindowChoice::Settled(window_id),
        window_id is None && tab_id is Some ==> r == WindowChoice::Settled(tab_id),
        window_id is None && tab_id is None && session.id != 0 ==> r == WindowChoice::IfOpen(
            session.id,
        ),
        window_id is None && tab_id is None && session.id == 0 ==> r == WindowChoice::Settled(None),
{
}

/// A remembered window is used where the daemon lists it, wherever in the list, and not
/// where it lists others only or could not be asked.
pub proof fn a_remembered_window_is_used_while_it_is_listed(
    remembered: i64,
    windows: Seq<Value>,
    i: int,
)
    ensures
        0 <= i < windows.len() && json::member_integer(windows[i], "id"@) == Some(
            remembered as int,
        ) ==> hwatu::still_open(remembered, Some(windows)) == Some(remembered),
        (forall|k: int|
            0 <= k < windows.len() ==> json::member_integer(#[trigger] windows[k], "id"@) != Some(
                remembered as int,
            )) ==> hwatu::still_open(remembered, Some(windows)) is None,
        hwatu::still_open(remembered, None) is None,
{
}

/// The window that a response names is the `id` of its `window`. A session takes it over
/// where its window was opened or navigated, and keeps its own otherwise.
pub proof fn a_session_takes_over_the_window_that_it_opened(
    own: i64,
    finish: Finish,
    response: Value,
    window: Value,
    id: i64,
)
    ensures
        json::member(response, "window"@) == Some(window) && json::member_integer(window, "id"@)
            == Some(id as int) ==> hwatu::response_window(response) == Some(id as int),
        json::member(response, "window"@) is None ==> hwatu::response_window(response) is None,
        hwatu::response_window(response) is None ==> hwatu_action::window_after(
            own,
            finish,
            response,
        ) == own,
        hwatu::response_window(response) == Some(id as int) && (finish is Opened
            || finish is NewTab) ==> hwatu_action::window_after(own, finish, response) == id,
        !(finish is Opened || finish is NewTab) ==> hwatu_action::window_after(
            own,
            finish,
            response,
        ) == own,
{
}

/// A response is passed on, unless its status is `err`. Then its message is the error, or
/// a general one where it has none.
pub proof fn an_error_status_is_an_error(response: Value, r: Result<Value, IpcError>)
    requires
        call_ensures(check_response, (response,), r),
    ensures
        ({
            let failed = json::member_text(response, "status"@) == Some("err"@);
            let message = json::member_text(response, "message"@);
            &&& !failed ==> r is Ok && r->Ok_0 == response
            &&& failed ==> r is Err && r->Err_0 is Daemon
            &&& failed && message is Some ==> r->Err_0->Daemon_0@ == message->0
            &&& failed && message is None ==> r->Err_0->Daemon_0@ == "unknown hwatu error"@
        }),
{
}

/// A line is read as the response that it holds between white space, which is then
/// checked; a line that holds none is a bad response.
pub proof fn a_line_is_read_as_the_response_in_it(
    line: &str,
    r: Result<Value, IpcError>,
    checked: Result<Value, IpcError>,
)
    requires
        call_ensures(hwatu::read_response, (line,), r),
        json::json_document(text::trimmed(line@)) is Some ==> call_ensures(
            check_response,
            (json::json_document(text::trimmed(line@))->0,),
            checked,
        ),
    ensures
        json::json_document(text::trimmed(line@)) is None ==> r is Err && r->Err_0 is BadResponse,
        json::json_document(text::trimmed(line@)) is Some ==> (r is Ok <==> checked is Ok) && (
        r is Ok ==> r->Ok_0 == checked->Ok_0) && (r is Err ==> r->Err_0 is Daemon
            && r->Err_0->Daemon_0@ == checked->Err_0->Daemon_0@),
{
}

/// Errors are reported in their words.
pub proof fn errors_are_reported_in_words(e: &IpcError, r: String)
    requires
        call_ensures(IpcError::message, (e,), r),
    ensures
        *e is Daemon ==> r@ == "hwatu: "@ + e->Daemon_0@,
        *e is BadResponse ==> r@ == "bad response from hwatu daemon"@,
{
}

/// The windows of a response are the items of its `windows`, if that is an array, and
/// none otherwise; a member is passed on as it is, and null where there is none.
pub proof fn members_are_passed_on(
    response: &Value,
    list: Vec<Value>,
    key: &str,
    member: Value,
    windows: Value,
)
    requires
        call_ensures(list_windows, (response,), list),
        call_ensures(member_or_null, (response, key), member),
    ensures
        json::member(*response, "windows"@) is None ==> list@.len() == 0,
        json::member(*response, "windows"@) == Some(windows) && json::json_view(windows) is Array
            ==> list@ == json::json_view(windows)->Array_0,
        json::member(*response, "windows"@) == Some(windows) && !(json::json_view(
            windows,
        ) is Array) ==> list@.len() == 0,
        json::member(*response, key@) is Some ==> member == json::member(*response, key@)->0,
        json::member(*response, key@) is None ==> json::json_view(member) == JsonView::Null,
{
}

/// The program is looked for at the explicit place, then among the user's own programs,
/// then in each directory of the search path in order.
pub proof fn the_program_is_looked_for_in_order(
    explicit: Option<&str>,
    home: Option<&str>,
    path_dirs: &Vec<String>,
    i: int,
    r: Vec<String>,
)
    requires
        call_ensures(hwatu_candidates, (explicit, home, path_dirs), r),
    ensures
        ({
            let first: int = if explicit is Some {
                1
            } else {
                0
            };
            let before: int = if home is Some {
                first + 1
            } else {
                first
            };
            &&& r@.len() == before + path_dirs@.len()
            &&& explicit is Some ==> r@[0]@ == explicit->0@
            &&& home is Some ==> r@[first]@ == paths::joined_path(home->0@, ".local/bin/hwatu"@)
            &&& 0 <= i < path_dirs@.len() ==> r@[before + i]@ == paths::joined_path(
                path_dirs@[i]@,
                "hwatu"@,
            )
        }),
{
    let all = text::views(r@);
    let first: int = if explicit is Some {
        1
    } else {
        0
    };
    let before: int = if home is Some {
        first + 1
    } else {
        first
    };
    assert(all.len() == r@.len());
    if explicit is Some {
        assert(all[0] == r@[0]@);
    }
    if home is Some {
        assert(all[first] == r@[first]@);
    }
    if 0 <= i < path_dirs@.len() {
        assert(all[before + i] == r@[before + i]@);
        assert(text::views(path_dirs@)[i] == path_dirs@[i]@);
    }
}

// ---------------------------------------------------------------------------
// Outputs
// ---------------------------------------------------------------------------

/// Whether an output with the given text is shown for an action, without an image.
pub open spec fn is_shown(
    r: Result<Outcome, serde_json::Error>,
    action: Seq<char>,
    shown: Seq<char>,
) -> bool {
    &&& r is Ok && r->Ok_0 is Output
    &&& r->Ok_0->Output_0.text@ == shown
    &&& r->Ok_0->Output_0.title@ == "browser "@ + action
    &&& r->Ok_0->Output_0.image is None
}

/// Whether a value is a member of a response, or null where there is none.
pub open spec fn is_the_member(v: Value, response: Value, key: Seq<char>) -> bool {
    if json::member(response, key) is Some {
        v == json::member(response, key)->0
    } else {
        json::json_view(v) == JsonView::Null
    }
}

/// A document is shown indented, and kept.
pub open spec fn is_document_shown(
    r: Result<Outcome, serde_json::Error>,
    action: Seq<char>,
    v: Value,
) -> bool {
    is_shown(r, action, json::json_pretty(v)) && r->Ok_0->Output_0.metadata == Some(v)
}

/// What is shown of a response that is not a list: what was opened or focused, the text
/// of a page, the value of a script or of an upload, the new window, the response itself,
/// or where the image is.
pub proof fn responses_are_shown_as_they_are(
    r: Result<Outcome, serde_json::Error>,
    finish: Finish,
    action: Seq<char>,
    response: Value,
)
    requires
        hwatu_action::is_finished(r, finish, action, response),
    ensures
        finish is Opened ==> is_shown(r, action, "Opened "@ + finish->Opened_0@)
            && r->Ok_0->Output_0.metadata is Some && is_the_member(
            r->Ok_0->Output_0.metadata->0,
            response,
            "window"@,
        ),
        finish is Focused ==> is_shown(
            r,
            action,
            "Focused window "@ + text::decimal_int(finish->Focused_0 as int),
        ) && r->Ok_0->Output_0.metadata is None,
        finish is Content && json::member_text(response, "value"@) is Some ==> is_shown(
            r,
            action,
            json::member_text(response, "value"@)->0,
        ),
        finish is Content && json::member_text(response, "value"@) is None ==> is_shown(
            r,
            action,
            Seq::empty(),
        ),
        finish is ShowValue ==> exists|v: Value| #[trigger]
            is_the_member(v, response, "value"@) && is_document_shown(r, action, v),
        finish is NewTab ==> exists|v: Value| #[trigger]
            is_the_member(v, response, "window"@) && is_document_shown(r, action, v),
        finish is Response ==> is_document_shown(r, action, response),
        finish is Interactables ==> r is Ok && r->Ok_0 is FormatInteractables && is_the_member(
            r->Ok_0->value,
            response,
            "value"@,
        ),
        finish is Screenshot ==> r is Ok && r->Ok_0 is ReadImage
            && r->Ok_0->ReadImage_response == response,
        finish is Screenshot && json::member_text(response, "path"@) is Some
            ==> r->Ok_0->is_named && r->Ok_0->saved@ == json::member_text(response, "path"@)->0,
        finish is Screenshot && json::member_text(response, "path"@) is None ==> !r->Ok_0->is_named
            && r->Ok_0->saved@ == finish->Screenshot_0@,
{
    if finish is ShowValue {
        let v = choose|v: Value| #[trigger]
            hwatu::is_member_or_null(v, response, "value"@) && hwatu_action::shows_document(
                r,
                v,
                hwatu_action::title_of(action),
            );
        assert(is_the_member(v, response, "value"@) && is_document_shown(r, action, v));
    }
    if finish is NewTab {
        let v = choose|v: Value| #[trigger]
            hwatu::is_member_or_null(v, response, "window"@) && hwatu_action::shows_document(
                r,
                v,
                hwatu_action::title_of(action),
            );
        assert(is_the_member(v, response, "window"@) && is_document_shown(r, action, v));
    }
}

/// The value of the caller's own script is shown as it is where it is a text, else
/// indented, and kept as the `result`.
pub proof fn results_are_shown_as_they_are(
    r: Result<Outcome, serde_json::Error>,
    action: Seq<char>,
    response: Value,
)
    requires
        hwatu_action::is_finished(r, Finish::Eval, action, response),
    ensures
        exists|v: Value| #[trigger]
            is_the_member(v, response, "value"@) && is_shown(
                r,
                action,
                if json::json_view(v) is Text {
                    json::json_view(v)->Text_0
                } else {
                    json::json_pretty(v)
                },
            ) && r->Ok_0->Output_0.metadata is Some && ({
                let kept = json::json_view(r->Ok_0->Output_0.metadata->0);
                kept is Object && kept->Object_0.contains_key("result"@)
                    && kept->Object_0["result"@] == v
            }),
{
    let v = choose|v: Value| #[trigger]
        hwatu::is_member_or_null(v, response, "value"@) && hwatu_action::shows_result(
            r,
            v,
            hwatu_action::title_of(action),
        );
    assert(is_the_member(v, response, "value"@));
}

/// Whether an output keeps the windows that were listed.
pub open spec fn keeps_windows(r: Result<Outcome, serde_json::Error>, windows: Seq<Value>) -> bool {
    r->Ok_0->Output_0.metadata is Some && carries(
        r->Ok_0->Output_0.metadata->0,
        "windows"@,
        JsonView::Array(windows),
    )
}

proof fn lemma_keeps(o: ToolOutput, windows: Seq<Value>)
    requires
        hwatu_action::lists(o, windows),
    ensures
        o.metadata is Some && carries(o.metadata->0, "windows"@, JsonView::Array(windows)),
{
    let m = o.metadata->0;
    assert(json::object_fields(m).contains_key("windows"@));
    assert(json::json_view(m) is Object);
    lemma_fields(m, "windows"@);
}

/// A list of windows is shown line by line, in their order; without windows it says so.
pub proof fn windows_are_listed_line_by_line(
    r: Result<Outcome, serde_json::Error>,
    action: Seq<char>,
    response: Value,
    lines: Seq<Seq<char>>,
)
    requires
        hwatu_action::is_finished(r, Finish::ListTabs, action, response),
        lines.len() == hwatu::listed_windows(response).len(),
        forall|i: int|
            0 <= i < lines.len() ==> is_line(
                #[trigger] lines[i],
                hwatu::listed_windows(response)[i],
            ),
    ensures
        keeps_windows(r, hwatu::listed_windows(response)),
        lines.len() > 0 ==> is_shown(r, action, text::joined(lines, seq!['\n'])),
        lines.len() == 0 ==> is_shown(
            r,
            action,
            "No windows open. hwatu windows double as tabs (the WM tiles them)."@,
        ),
{
    let windows = hwatu::listed_windows(response);
    lemma_keeps(r->Ok_0->Output_0, windows);
    reveal_strlit("\n");
    assert("\n"@ == seq!['\n']);
    let shown = windows.map_values(|w: Value| hwatu_action::window_line(w));
    assert forall|i: int| 0 <= i < lines.len() implies lines[i] == #[trigger] shown[i] by {
        assert(is_line(lines[i], windows[i]));
    }
    assert(lines == shown);
}

/// Whether a line lists a window: its number, its title, its address, and its marks.
pub open spec fn is_line(line: Seq<char>, w: Value) -> bool {
    let id = json::member(w, "id"@);
    let n = if id is Some && json::json_view(id->0) is Integer && 0 <= json::json_view(
        id->0,
    )->Integer_0 <= u64::MAX {
        json::json_view(id->0)->Integer_0 as nat
    } else {
        0
    };
    let title = json::member_text(w, "title"@);
    let url = json::member_text(w, "url"@);
    line == text::decimal(n) + ". "@ + (if title is Some {
        title->0
    } else {
        Seq::empty()
    }) + " "@ + (if url is Some {
        url->0
    } else {
        Seq::empty()
    }) + " "@ + (if is_marked(w, "focused"@) {
        "[focused]"@
    } else {
        Seq::empty()
    }) + (if is_marked(w, "suspended"@) {
        "[suspended]"@
    } else {
        Seq::empty()
    })
}

/// Whether a member of a window is the boolean `true`.
pub open spec fn is_marked(w: Value, key: Seq<char>) -> bool {
    json::member(w, key) is Some && json::json_view(json::member(w, key)->0) == JsonView::Bool(
        true,
    )
}

/// The active window is the first that is focused, or else the first.
pub proof fn the_active_window_is_the_focused_one(
    r: Result<Outcome, serde_json::Error>,
    action: Seq<char>,
    response: Value,
    i: int,
)
    requires
        hwatu_action::is_finished(r, Finish::ActiveTab, action, response),
    ensures
        ({
            let windows = hwatu::listed_windows(response);
            &&& keeps_windows(r, windows)
            &&& windows.len() == 0 ==> is_shown(r, action, "No windows open."@)
            &&& 0 <= i < windows.len() && is_marked(windows[i], "focused"@) && (forall|k: int|
                0 <= k < i ==> !is_marked(#[trigger] windows[k], "focused"@)) ==> is_shown(
                r,
                action,
                json::json_pretty(windows[i]),
            )
            &&& windows.len() > 0 && (forall|k: int|
                0 <= k < windows.len() ==> !is_marked(#[trigger] windows[k], "focused"@))
                ==> is_shown(r, action, json::json_pretty(windows[0]))
        }),
{
    let windows = hwatu::listed_windows(response);
    lemma_keeps(r->Ok_0->Output_0, windows);
    lemma_first_focused(windows, i);
}

proof fn lemma_first_focused(windows: Seq<Value>, i: int)
    ensures
        0 <= i < windows.len() && is_marked(windows[i], "focused"@) && (forall|k: int|
            0 <= k < i ==> !is_marked(#[trigger] windows[k], "focused"@))
            ==> hwatu_action::first_focused(windows) == i,
        (forall|k: int| 0 <= k < windows.len() ==> !is_marked(#[trigger] windows[k], "focused"@))
            ==> hwatu_action::first_focused(windows) == windows.len(),
    decreases windows.len(),
{
    if windows.len() > 0 {
        let rest = windows.skip(1);
        lemma_first_focused(rest, i - 1);
        assert(is_marked(windows[0], "focused"@) == json::member_is_true(windows[0], "focused"@));
        if forall|k: int| 0 <= k < i ==> !is_marked(#[trigger] windows[k], "focused"@) {
            assert forall|k: int| 0 <= k < i - 1 && k < rest.len() implies !is_marked(
                #[trigger] rest[k],
                "focused"@,
            ) by {
                assert(rest[k] == windows[k + 1]);
            }
            assert forall|k: int| 0 <= k < i - 1 && i <= windows.len() implies !is_marked(
                #[trigger] rest[k],
                "focused"@,
            ) by {
                assert(rest[k] == windows[k + 1]);
            }
            if 0 < i < windows.len() {
                assert(rest[i - 1] == windows[i]);
                assert(!is_marked(windows[0], "focused"@));
            }
        }
        if forall|k: int| 0 <= k < windows.len() ==> !is_marked(#[trigger] windows[k], "focused"@) {
            assert forall|k: int| 0 <= k < rest.len() implies !is_marked(
                #[trigger] rest[k],
                "focused"@,
            ) by {
                assert(rest[k] == windows[k + 1]);
            }
        }
    }
}

/// What is written out of elements, and where an image went, is shown under the title of
/// the action.
pub proof fn elements_and_images_are_shown(
    formatted: String,
    value: Value,
    action: &str,
    elements: ToolOutput,
    saved: &str,
    response: Value,
    bytes: Option<&Vec<u8>>,
    image: ToolOutput,
)
    requires
        call_ensures(finish_interactables, (formatted, value, action), elements),
        call_ensures(finish_screenshot, (saved, response, bytes, action), image),
    ensures
        elements.text@ == formatted@,
        elements.title@ == "browser "@ + action@,
        elements.metadata == Some(value),
        elements.image is None,
        image.text@ == "Captured hwatu screenshot to "@ + saved@ + "."@,
        image.title@ == "browser "@ + action@,
        image.metadata == Some(response),
        image.image is Some <==> bytes is Some,
        image.image is Some ==> image.image->0.media_type@ == "image/png"@
            && image.image->0.label@ == "hwatu screenshot: "@ + saved@,
{
}

/// The title of an output names the action.
pub proof fn titles_name_the_action(action: &str, r: String)
    requires
        call_ensures(window_title, (action,), r),
    ensures
        r@ == "browser "@ + action@,
{
}

/// The status is ready exactly where the daemon responds, and says what is missing
/// otherwise.
pub proof fn the_status_says_what_is_missing(installed: bool, responding: bool, r: ToolOutput)
    requires
        call_ensures(status_output, (installed, responding), r),
    ensures
        r.title@ == "browser status"@ && r.image is None && r.metadata is Some,
        responding ==> r.text@ == "hwatu daemon is running and responding."@,
        !responding && installed ==> r.text@
            == "hwatu is installed but the daemon is not running. Any browser action will auto-start it."@,
        !responding && !installed ==> r.text@
            == "hwatu is not installed. Install it from https://github.com/hongnoul/hwatu or use browser='firefox'."@,
        carries(r.metadata->0, "ready"@, JsonView::Bool(responding)),
        carries(r.metadata->0, "responding"@, JsonView::Bool(responding)),
        carries(r.metadata->0, "binary_installed"@, JsonView::Bool(installed)),
        carries(r.metadata->0, "backend"@, JsonView::Text("hwatu"@)),
        carries(r.metadata->0, "browser"@, JsonView::Text("hwatu"@)),
{
    reveal_strlit("ready");
    reveal_strlit("responding");
    reveal_strlit("binary_installed");
    reveal_strlit("backend");
    reveal_strlit("browser");
    assert("ready"@.len() == 5 && "responding"@.len() == 10 && "binary_installed"@.len() == 16);
    assert("backend"@[1] == 'a' && "browser"@[1] == 'r');
    let m = r.metadata->0;
    assert(json::object_fields(m).contains_key("ready"@));
    assert(json::json_view(m) is Object);
    lemma_fields(m, "ready"@);
    lemma_fields(m, "responding"@);
    lemma_fields(m, "binary_installed"@);
    lemma_fields(m, "backend"@);
    lemma_fields(m, "browser"@);
}

/// The setup is ready exactly where it did not fail, and says why otherwise.
pub proof fn the_setup_says_why_it_failed(failure: Option<&str>, r: ToolOutput)
    requires
        call_ensures(setup_output, (failure,), r),
    ensures
        r.image is None && r.metadata is Some,
        failure is None ==> r.text@ == "hwatu daemon is running. No further setup needed."@
            && r.title@ == "browser setup"@,
        failure is Some ==> r.text@ == "hwatu setup failed: "@ + failure->0@ && r.title@
            == "browser setup (incomplete)"@,
        carries(r.metadata->0, "ready"@, JsonView::Bool(failure is None)),
        carries(r.metadata->0, "backend"@, JsonView::Text("hwatu"@)),
        carries(r.metadata->0, "browser"@, JsonView::Text("hwatu"@)),
{
    reveal_strlit("ready");
    reveal_strlit("backend");
    reveal_strlit("browser");
    assert("ready"@.len() == 5 && "backend"@[1] == 'a' && "browser"@[1] == 'r');
    let m = r.metadata->0;
    assert(json::object_fields(m).contains_key("ready"@));
    assert(json::json_view(m) is Object);
    lemma_fields(m, "ready"@);
    lemma_fields(m, "backend"@);
    lemma_fields(m, "browser"@);
}

} // verus!
